//! The record of a request to a language model that failed.

use crate::session::clock::{format_time, formatted_time, now, rfc3339, rfc3339_text, Timestamp};
use crate::session::paths::{join_path, joined_path};
use crate::text::{setting_or, setting_text, switch, switch_is_on};
use openai_dive::v1::resources::chat::ChatCompletionParameters;
use vstd::prelude::*;

verus! {

/// `openai_dive::v1::resources::chat::ChatCompletionParameters`: a request to a language
/// model. Verus sees nothing inside one.
#[verifier::external_type_specification]
#[verifier::external_body]
pub struct ExChatCompletionParameters(ChatCompletionParameters);

/// The request as indented JSON text, or the reason for which it cannot be written so:
/// `serde_json::to_string_pretty`, with its error turned to text by `Display`.
///
/// Nothing is claimed of the text.
#[verifier::external_body]
fn request_json(request: &ChatCompletionParameters) -> (json: Result<String, String>) {
    match serde_json::to_string_pretty(request) {
        Ok(json) => Ok(json),
        Err(error) => Err(error.to_string()),
    }
}

/// The model that the request names: a copy of its field `model`.
///
/// Nothing is claimed of the text.
#[verifier::external_body]
fn model_of(request: &ChatCompletionParameters) -> (model: String) {
    request.model.clone()
}

/// The folder for the records where none is set.
pub open spec fn default_log_folder() -> Seq<char> {
    ".shai/logs/"@
}

/// The layout of the date and the time of day in the name of a record.
pub open spec fn stamp_layout() -> Seq<char> {
    "%Y%m%d_%H%M%S"@
}

/// The layout of the milliseconds in the name of a record.
pub open spec fn millis_layout() -> Seq<char> {
    "%3f"@
}

/// The name of the record that is written at the time of which `stamp` is the date and time
/// of day and `millis` the milliseconds.
pub open spec fn error_log_name(stamp: Seq<char>, millis: Seq<char>) -> Seq<char> {
    "error_"@ + stamp + "_"@ + millis + ".log"@
}

/// What the record says of the request: its JSON text, or that there is none.
pub open spec fn request_section(request: Result<String, String>) -> Seq<char> {
    match request {
        Ok(json) => json@,
        Err(reason) => "Failed to serialize request: "@ + reason@,
    }
}

/// The text of a record: a header with the time, the provider and the model; the request;
/// the error.
pub open spec fn error_log_content(
    timestamp: Seq<char>,
    provider_name: Seq<char>,
    model: Seq<char>,
    request: Result<String, String>,
    error: Seq<char>,
) -> Seq<char> {
    "=== LLM Request Error Log ===\n"@ + "Timestamp: "@ + timestamp + "\n"@ + "Provider: "@
        + provider_name + "\n"@ + "Model: "@ + model + "\n"@ + "\n=== REQUEST ===\n"@
        + request_section(request) + "\n"@ + "\n=== ERROR ===\n"@ + error + "\n"@
}

/// A record to be written.
#[derive(Debug)]
pub struct ErrorLog {
    /// The folder of the records, to be created unless it is there.
    pub folder: String,
    /// The path of the record.
    pub path: String,
    /// The text of the record.
    pub content: String,
}

/// The content of an [`ErrorLog`].
pub struct ErrorLogView {
    pub folder: Seq<char>,
    pub path: Seq<char>,
    pub content: Seq<char>,
}

impl View for ErrorLog {
    type V = ErrorLogView;

    open spec fn view(&self) -> ErrorLogView {
        ErrorLogView { folder: self.folder@, path: self.path@, content: self.content@ }
    }
}

/// The record of a request that failed at `time`, in `folder`: `None` where the time cannot
/// be written.
pub open spec fn error_log(
    folder: Seq<char>,
    time: Timestamp,
    provider_name: Seq<char>,
    model: Seq<char>,
    request: Result<String, String>,
    error: Seq<char>,
) -> Option<ErrorLogView> {
    match (
        formatted_time(time.secs as int, time.nanos as int, stamp_layout()),
        formatted_time(time.secs as int, time.nanos as int, millis_layout()),
        rfc3339_text(time.secs as int, time.nanos as int),
    ) {
        (Some(stamp), Some(millis), Some(timestamp)) => Some(
            ErrorLogView {
                folder,
                path: joined_path(folder, error_log_name(stamp, millis)),
                content: error_log_content(timestamp, provider_name, model, request, error),
            },
        ),
        _ => None,
    }
}

/// Writes the name of a record.
pub fn error_log_file_name(stamp: &str, millis: &str) -> (name: String)
    ensures
        name@ == error_log_name(stamp@, millis@),
{
    let mut name = "error_".to_owned();
    name.append(stamp);
    name.append("_");
    name.append(millis);
    name.append(".log");
    name
}

/// Writes the text of a record.
pub fn error_log_text(
    timestamp: &str,
    provider_name: &str,
    model: &str,
    request: &Result<String, String>,
    error: &str,
) -> (content: String)
    ensures
        content@ == error_log_content(timestamp@, provider_name@, model@, *request, error@),
{
    let mut content = String::new();
    content.append("=== LLM Request Error Log ===\n");
    content.append("Timestamp: ");
    content.append(timestamp);
    content.append("\n");
    content.append("Provider: ");
    content.append(provider_name);
    content.append("\n");
    content.append("Model: ");
    content.append(model);
    content.append("\n");
    content.append("\n=== REQUEST ===\n");
    let ghost head = content@;
    match request {
        Ok(json) => {
            content.append(json.as_str());
        },
        Err(reason) => {
            content.append("Failed to serialize request: ");
            content.append(reason.as_str());
        },
    }
    assert(content@ =~= head + request_section(*request));
    content.append("\n");
    content.append("\n=== ERROR ===\n");
    content.append(error);
    content.append("\n");
    assert(content@ =~= error_log_content(timestamp@, provider_name@, model@, *request, error@));
    content
}

/// Makes the record of a request that failed at `time`.
pub fn error_log_at(
    folder: &str,
    time: Timestamp,
    provider_name: &str,
    model: &str,
    request: &Result<String, String>,
    error: &str,
) -> (log: Option<ErrorLog>)
    ensures
        match log {
            Some(log) => error_log(folder@, time, provider_name@, model@, *request, error@)
                == Some(log@),
            None => error_log(folder@, time, provider_name@, model@, *request, error@) is None,
        },
{
    let stamp = format_time(time, "%Y%m%d_%H%M%S");
    let millis = format_time(time, "%3f");
    let timestamp = rfc3339(time);
    match (stamp, millis, timestamp) {
        (Some(stamp), Some(millis), Some(timestamp)) => {
            let name = error_log_file_name(stamp.as_str(), millis.as_str());
            Some(
                ErrorLog {
                    folder: folder.to_owned(),
                    path: join_path(folder, name.as_str()),
                    content: error_log_text(
                        timestamp.as_str(),
                        provider_name,
                        model,
                        request,
                        error,
                    ),
                },
            )
        },
        _ => None,
    }
}

/// Makes the record of a request that has just failed, where such records are kept.
///
/// Two settings decide: the first switches the records on, and they are off where it is
/// unset or its text, put in lower case, is anything but `true`; the second names their
/// folder, which is `.shai/logs/` where it is unset. The record is that of
/// [`error_log_at`] for the time at which the clock is read, for the model that the request
/// names and for the JSON text of the request.
pub fn log_llm_error(
    logging_enabled: Option<&str>,
    logging_folder: Option<&str>,
    request: &ChatCompletionParameters,
    error: &str,
    provider_name: &str,
) -> (log: Option<ErrorLog>)
    ensures
        !switch_is_on(setting_text(logging_enabled), false) ==> log is None,
        switch_is_on(setting_text(logging_enabled), false) ==> exists|
            time: Timestamp,
            model: Seq<char>,
            json: Result<String, String>,
        |
            {
                &&& time.secs >= 0 && time.regular()
                &&& match log {
                    Some(log) => #[trigger] error_log(
                        setting_or(logging_folder, default_log_folder()),
                        time,
                        provider_name@,
                        model,
                        json,
                        error@,
                    ) == Some(log@),
                    None => error_log(
                        setting_or(logging_folder, default_log_folder()),
                        time,
                        provider_name@,
                        model,
                        json,
                        error@,
                    ) is None,
                }
            },
{
    if !switch(logging_enabled, false) {
        return None;
    }
    let folder = match logging_folder {
        Some(folder) => folder,
        None => ".shai/logs/",
    };
    let time = now();
    let model = model_of(request);
    let json = request_json(request);
    let log = error_log_at(folder, time, provider_name, model.as_str(), &json, error);
    proof {
        assert(folder@ == setting_or(logging_folder, default_log_folder()));
        let made = error_log(
            setting_or(logging_folder, default_log_folder()),
            time,
            provider_name@,
            model@,
            json,
            error@,
        );
        assert(match log {
            Some(log) => made == Some(log@),
            None => made is None,
        });
    }
    log
}

} // verus!
