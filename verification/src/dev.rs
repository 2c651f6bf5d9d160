pub mod debounce;
pub mod orchestrator;
pub mod watch_set;
