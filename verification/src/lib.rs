//! Supervision and control of a local aria2 worker: the decisions of the
//! port resolver, the process handle, the readiness wait and the health
//! monitor, and the rules by which jobs are named, asked for and reported,
//! stated as contracts and proved.
//!
//! The library starts no process and opens no file and no connection.
//! Where a decision needs one of them, the library says what is to be done
//! and takes what came of it: each operation that lasts is begun by one
//! call, which answers with the first effect that the host is to perform,
//! and carried on by `resume`, which takes the outcome of that effect and
//! answers with the next.

pub mod client;
pub mod daemon;
pub mod error;
pub mod manager;
pub mod poller;
pub mod simple;
pub mod text;

pub use daemon::{Aria2Daemon, DaemonConfig};
pub use error::Aria2Error;
