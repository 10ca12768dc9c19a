//! Core logic of the Seidrum event platform.
pub mod duplicate;
pub mod events;
pub mod gateway;
pub mod json;
pub mod kernel;
pub mod llm;
pub mod order;
pub mod outside;
pub mod plugins;
pub mod table;
pub mod text;
pub mod time;
pub mod wire;
