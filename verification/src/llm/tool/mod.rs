//! Tools that a model may call.

pub mod call_fc_auto;
