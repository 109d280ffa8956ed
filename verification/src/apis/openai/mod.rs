//! The OpenAI-style interfaces: chat completions and responses.

pub mod completion;
pub mod events;
pub mod response;
