//! Supervision of one external media-player subprocess per application
//! window: a lock-guarded instance registry, stale-process detection on
//! re-initialization, a bounded FIFO capture of the player's standard
//! output for failure diagnostics, a readiness probe with a bounded
//! timeout, and graceful termination.
//!
//! The decision logic of the supervisor is verified here; the surrounding
//! process, thread and file-system plumbing hands it plain values and
//! carries out the actions it chooses.

pub mod strutil;
pub mod log_buffer;
pub mod probe;
pub mod registry;
pub mod config;
pub mod supervisor;
