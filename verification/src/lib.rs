//! Verified core of a small system-metrics agent: configuration model,
//! snapshot arithmetic, exporter scheduling, the config-reload state
//! machine and the HTTP replies.

pub mod config;
pub mod snapshot;
pub mod collector;
pub mod exporter;
pub mod watcher;
pub mod http;
