//! Providers of language models.

pub mod ollama;
