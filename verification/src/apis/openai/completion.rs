//! The chat completions interface: what a finished run of the agent is answered with.

use crate::apis::openai::events::Summary;
use vstd::prelude::*;

verus! {

/// Why the answer ends where it does.
#[derive(Clone, Copy, Debug, PartialEq, Eq, Structural)]
pub enum FinishReason {
    /// The assistant has said what it had to say.
    StopSequenceReached,
}

/// The one choice of a chat completion.
#[derive(Debug)]
pub struct Completion {
    /// The text of the message of the assistant.
    pub message: String,
    pub finish_reason: FinishReason,
}

/// Makes the answer to a chat completion request of what was gathered from the events of
/// the agent: the last message of the assistant. However the run ended, completed, failed or
/// paused, the answer ends as one that the assistant has finished.
pub fn handle_chat_completion(summary: Summary) -> (completion: Completion)
    ensures
        completion.message == summary.final_message,
        completion.finish_reason == FinishReason::StopSequenceReached,
{
    Completion { message: summary.final_message, finish_reason: FinishReason::StopSequenceReached }
}

} // verus!
