use shai_http::apis::openai::completion::{handle_chat_completion, FinishReason};
use shai_http::apis::openai::events::{
    AgentEvent, EventCollector, ItemStatus, ResponseStatus, Summary, ToolCall, ToolResult,
};
use shai_http::apis::openai::response::{response_body, OutputItem};

fn thought(text: &str) -> AgentEvent {
    AgentEvent::BrainResult { text: Some(text.to_string()) }
}

fn call(id: &str, name: &str, result: ToolResult) -> AgentEvent {
    AgentEvent::ToolCallCompleted {
        call: ToolCall {
            tool_call_id: id.to_string(),
            tool_name: name.to_string(),
            parameters: "{\"path\":\"/tmp\"}".to_string(),
        },
        result,
    }
}

fn completed(message: &str, success: bool) -> AgentEvent {
    AgentEvent::Completed { message: message.to_string(), success }
}

/// Reads the events until one ends the response, and says how many were read.
fn gather(events: Vec<AgentEvent>) -> (Summary, usize) {
    let mut collector = EventCollector::new();
    let mut read = 0;
    for event in events {
        read += 1;
        if collector.observe(event) {
            break;
        }
    }
    (collector.finish(), read)
}

#[test]
fn nothing_read_is_an_empty_completed_response() {
    let (summary, read) = gather(Vec::new());
    assert_eq!(read, 0);
    assert!(summary.calls.is_empty());
    assert_eq!(summary.final_message, "");
    assert_eq!(summary.status, ResponseStatus::Completed);
}

#[test]
fn the_last_thought_is_the_message() {
    let (summary, read) = gather(vec![
        thought("first"),
        AgentEvent::BrainResult { text: None },
        AgentEvent::Other,
        thought("second"),
        AgentEvent::ToolCallStarted { tool_name: "ls".to_string() },
    ]);
    assert_eq!(read, 5);
    assert_eq!(summary.final_message, "second");
    assert_eq!(summary.status, ResponseStatus::Completed);
    assert!(summary.calls.is_empty());
}

#[test]
fn the_message_of_the_run_replaces_the_thought_unless_it_is_empty() {
    let (summary, read) = gather(vec![thought("thinking"), completed("done", true), thought("x")]);
    assert_eq!(read, 2);
    assert_eq!(summary.final_message, "done");
    assert_eq!(summary.status, ResponseStatus::Completed);
    let (summary, _) = gather(vec![thought("thinking"), completed("", true)]);
    assert_eq!(summary.final_message, "thinking");
    assert_eq!(summary.status, ResponseStatus::Completed);
}

#[test]
fn an_unsuccessful_run_fails_the_response() {
    let (summary, read) = gather(vec![thought("thinking"), completed("gave up", false)]);
    assert_eq!(read, 2);
    assert_eq!(summary.final_message, "gave up");
    assert_eq!(summary.status, ResponseStatus::Failed);
}

#[test]
fn a_pause_leaves_the_response_incomplete() {
    let (summary, read) = gather(vec![thought("so far"), AgentEvent::Paused, completed("x", true)]);
    assert_eq!(read, 2);
    assert_eq!(summary.final_message, "so far");
    assert_eq!(summary.status, ResponseStatus::Incomplete);
}

#[test]
fn a_failure_of_the_agent_fails_the_response() {
    let (summary, read) = gather(vec![
        thought("so far"),
        AgentEvent::Error { error: "out of memory".to_string() },
        AgentEvent::Paused,
    ]);
    assert_eq!(read, 2);
    assert_eq!(summary.final_message, "so far");
    assert_eq!(summary.status, ResponseStatus::Failed);
}

#[test]
fn finished_calls_are_reported_in_order() {
    let (summary, _) = gather(vec![
        call("c1", "ls", ToolResult::Success { output: "a b".to_string() }),
        call("c2", "rm", ToolResult::Error { error: "denied".to_string() }),
        call("c3", "cat", ToolResult::Denied),
        completed("done", true),
        call("c4", "late", ToolResult::Denied),
    ]);
    assert_eq!(summary.calls.len(), 3);
    let shown: Vec<(String, String, String, String, ItemStatus)> = summary
        .calls
        .iter()
        .map(|c| (c.id.clone(), c.call_id.clone(), c.name.clone(), c.arguments.clone(), c.status))
        .collect();
    let arguments = "{\"path\":\"/tmp\"}".to_string();
    assert_eq!(
        shown,
        vec![
            ("c1".into(), "c1".into(), "ls".into(), arguments.clone(), ItemStatus::Completed),
            ("c2".into(), "c2".into(), "rm".into(), arguments.clone(), ItemStatus::Incomplete),
            ("c3".into(), "c3".into(), "cat".into(), arguments, ItemStatus::Incomplete),
        ]
    );
}

#[test]
fn nothing_is_read_after_the_end() {
    let mut collector = EventCollector::new();
    assert!(!collector.observe(thought("kept")));
    assert!(collector.observe(AgentEvent::Paused));
    assert!(collector.observe(thought("dropped")));
    assert!(collector.observe(completed("dropped too", false)));
    assert!(collector.observe(call("c1", "ls", ToolResult::Denied)));
    let summary = collector.finish();
    assert_eq!(summary.final_message, "kept");
    assert_eq!(summary.status, ResponseStatus::Incomplete);
    assert!(summary.calls.is_empty());
}

#[test]
fn a_chat_completion_ends_as_finished_however_the_run_ended() {
    for last in [completed("done", true), completed("gave up", false), AgentEvent::Paused] {
        let (summary, _) = gather(vec![thought("so far"), last]);
        let expected = summary.final_message.clone();
        let completion = handle_chat_completion(summary);
        assert_eq!(completion.message, expected);
        assert_eq!(completion.finish_reason, FinishReason::StopSequenceReached);
    }
    let (summary, _) = gather(Vec::new());
    assert_eq!(handle_chat_completion(summary).message, "");
}

#[test]
fn the_output_of_a_response_is_the_calls_and_then_the_message() {
    let (summary, _) = gather(vec![
        call("c1", "ls", ToolResult::Success { output: "a".to_string() }),
        thought("looking"),
        call("c2", "rm", ToolResult::Denied),
        completed("done", false),
    ]);
    let body = response_body(summary);
    assert_eq!(body.status, ResponseStatus::Failed);
    let shown: Vec<String> = body
        .output
        .iter()
        .map(|item| match item {
            OutputItem::FunctionToolCall(call) => format!("call {} {:?}", call.id, call.status),
            OutputItem::Message { text } => format!("message {}", text),
        })
        .collect();
    assert_eq!(shown, vec!["call c1 Completed", "call c2 Incomplete", "message done"]);
}

#[test]
fn the_output_of_a_response_without_calls_is_the_message_alone() {
    let (summary, _) = gather(Vec::new());
    let body = response_body(summary);
    assert_eq!(body.status, ResponseStatus::Completed);
    assert_eq!(body.output.len(), 1);
    assert!(matches!(&body.output[0], OutputItem::Message { text } if text.is_empty()));
}
