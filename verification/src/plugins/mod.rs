//! The plugins: channels, extractors and tools.
pub mod announcements;
pub mod calendar;
pub mod claude_code;
pub mod cli_channel;
pub mod code_executor;
pub mod content_ingester;
pub mod email;
pub mod entity_extractor;
pub mod event_emitter;
pub mod extraction;
pub mod fact_extractor;
pub mod feedback_extractor;
pub mod google_key;
pub mod graph_context_loader;
pub mod mail_form;
pub mod process;
pub mod tool_call;
