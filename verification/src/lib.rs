//! I/O core of a single-process FTP-style server: a readiness-driven
//! connection engine that multiplexes client sockets on one reactor thread,
//! hands completed requests to a bounded queue for background workers, and
//! tracks per-connection idleness for eviction.

pub mod flags;
pub mod connection;
mod sys;
pub mod queue;
pub mod timer_list;
pub mod reactor;
pub mod server;
