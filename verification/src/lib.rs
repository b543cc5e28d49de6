//! Supervision core for a desktop launcher that runs a single external
//! storage-server binary: launch planning and validation, bounded in-memory
//! log buffers with timestamped entries, terminal escape-sequence cleaning,
//! best-effort log broadcasting to a UI surface, and termination of the
//! tracked child process.

mod clock;
pub mod config;
pub mod error;
pub mod logbuf;
pub mod numfmt;
pub mod process;
pub mod registry;
pub mod sanitize;
pub mod strutil;
