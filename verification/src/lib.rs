//! Application bootstrap library: configuration loaded from environment
//! pairs with per-field defaults, a one-time configuration cache, and a
//! supervised graceful-shutdown state machine with a sample tick task.

pub mod cache;
pub mod config;
pub mod supervisor;
pub mod task;
