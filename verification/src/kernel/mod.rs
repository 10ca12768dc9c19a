//! The kernel's services.
pub mod agent;
pub mod arguments;
pub mod consciousness;
pub mod event_run;
pub mod management;
pub mod plugin_storage;
pub mod registry;
pub mod trace_collector;
