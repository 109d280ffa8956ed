//! What the handlers of the wire interfaces compute.

pub mod openai;
