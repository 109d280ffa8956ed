//! Around the clients of language models: the record of a failed request, the settings of a
//! provider, and the tools that a request offers to a model.

pub mod logging;
pub mod providers;
pub mod tool;
