//! HTTP modules that speak the protocols of other inference servers.

pub mod ollama_compat;
pub mod ollama_stream;
pub mod openai_compat;
pub mod openai_stream;
pub mod resolve;
pub mod stream;
