//! Supervision of the worker process: where its binary lives, which port
//! its control endpoint takes, how it is launched and stopped, how it is
//! waited for, and how it is watched and restarted.

pub mod binary;
pub mod monitor;
pub mod orchestrator;
pub mod platform;
pub mod port_utils;
pub mod process;

pub use orchestrator::{Aria2Daemon, DaemonConfig};
