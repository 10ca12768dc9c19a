//! The model providers: their message formats and the loop that lets a model
//! call tools.
pub mod anthropic;
pub mod dispatch;
pub mod google;
pub mod ollama;
pub mod openai;
pub mod period;
