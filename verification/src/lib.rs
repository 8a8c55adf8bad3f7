//! Tortuga: the decision logic of a terminal HTTP endpoint monitor.
//!
//! The library decides whether an endpoint is up, keeps per-endpoint uptime
//! counters and a bounded event log, chooses where status-change alerts go,
//! and prepares the text that the dashboard shows. Network, terminal and file
//! work are left to the caller.

pub mod text;
pub mod state;
pub mod monitor;
pub mod config;
pub mod alert;
pub mod ui;
