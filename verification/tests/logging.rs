use openai_dive::v1::resources::chat::{ChatCompletionParameters, ChatMessage, ChatMessageContent};
use shai_http::llm::logging::{
    error_log_at, error_log_file_name, error_log_text, log_llm_error,
};
use shai_http::session::clock::Timestamp;

#[test]
fn the_name_of_a_record() {
    assert_eq!(error_log_file_name("20150515_000000", "026"), "error_20150515_000000_026.log");
    assert_eq!(error_log_file_name("", ""), "error__.log");
}

#[test]
fn the_text_of_a_record() {
    let content = error_log_text(
        "2015-05-15T00:00:00+00:00",
        "ollama",
        "llama3",
        &Ok("{\n  \"model\": \"llama3\"\n}".to_string()),
        "connection refused",
    );
    assert_eq!(
        content,
        "=== LLM Request Error Log ===\n\
         Timestamp: 2015-05-15T00:00:00+00:00\n\
         Provider: ollama\n\
         Model: llama3\n\
         \n=== REQUEST ===\n\
         {\n  \"model\": \"llama3\"\n}\n\
         \n=== ERROR ===\n\
         connection refused\n"
    );
}

#[test]
fn the_text_of_a_record_whose_request_cannot_be_written() {
    let content =
        error_log_text("t", "p", "m", &Err("key must be a string".to_string()), "boom");
    assert_eq!(
        content,
        "=== LLM Request Error Log ===\nTimestamp: t\nProvider: p\nModel: m\n\n=== REQUEST ===\n\
         Failed to serialize request: key must be a string\n\n=== ERROR ===\nboom\n"
    );
}

#[test]
fn a_record_is_named_after_its_time() {
    let time = Timestamp { secs: 1_431_648_000, nanos: 26_000_000 };
    let log = error_log_at("logs", time, "ollama", "llama3", &Ok("{}".to_string()), "boom")
        .expect("the time can be written");
    assert_eq!(log.folder, "logs");
    assert_eq!(log.path, "logs/error_20150515_000000_026.log");
    assert_eq!(
        log.content,
        "=== LLM Request Error Log ===\nTimestamp: 2015-05-15T00:00:00.026+00:00\n\
         Provider: ollama\nModel: llama3\n\n=== REQUEST ===\n{}\n\n=== ERROR ===\nboom\n"
    );
    let time = Timestamp { secs: 1_700_000_000 + 86_399, nanos: 999_999_999 };
    let log = error_log_at(".shai/logs/", time, "p", "m", &Ok("{}".to_string()), "e").unwrap();
    assert_eq!(log.path, ".shai/logs/error_20231115_221319_999.log");
}

#[test]
fn a_time_that_cannot_be_written_gives_no_record() {
    let time = Timestamp { secs: i64::MAX, nanos: 0 };
    assert!(error_log_at("logs", time, "p", "m", &Ok("{}".to_string()), "e").is_none());
    let time = Timestamp { secs: 0, nanos: 2_000_000_000 };
    assert!(error_log_at("logs", time, "p", "m", &Ok("{}".to_string()), "e").is_none());
}

fn request() -> ChatCompletionParameters {
    ChatCompletionParameters {
        model: "llama3".to_string(),
        messages: vec![ChatMessage::User {
            content: ChatMessageContent::Text("hi".to_string()),
            name: None,
        }],
        ..ChatCompletionParameters::default()
    }
}

#[test]
fn no_record_is_made_unless_records_are_switched_on() {
    assert!(log_llm_error(None, None, &request(), "boom", "ollama").is_none());
    assert!(log_llm_error(Some("false"), Some("logs"), &request(), "boom", "ollama").is_none());
    assert!(log_llm_error(Some("1"), Some("logs"), &request(), "boom", "ollama").is_none());
}

#[test]
fn a_record_of_the_request_that_has_just_failed() {
    let log = log_llm_error(Some("True"), Some("logs"), &request(), "connection refused", "ollama")
        .expect("records are switched on");
    assert_eq!(log.folder, "logs");
    assert!(log.path.starts_with("logs/error_2"));
    assert!(log.path.ends_with(".log"));
    assert_eq!(log.path.len(), "logs/error_20150515_000000_026.log".len());
    let expected_request = serde_json::to_string_pretty(&request()).unwrap();
    assert!(expected_request.contains("\"model\": \"llama3\""));
    let lines: Vec<&str> = log.content.lines().collect();
    assert_eq!(lines[0], "=== LLM Request Error Log ===");
    assert!(lines[1].starts_with("Timestamp: 2"));
    assert_eq!(lines[2], "Provider: ollama");
    assert_eq!(lines[3], "Model: llama3");
    let tail = format!(
        "\n\n=== REQUEST ===\n{}\n\n=== ERROR ===\nconnection refused\n",
        expected_request
    );
    assert!(log.content.ends_with(&tail));

    let log = log_llm_error(Some("true"), None, &request(), "boom", "ollama").unwrap();
    assert_eq!(log.folder, ".shai/logs/");
    assert!(log.path.starts_with(".shai/logs/error_2"));
}
