//! A gateway that serves SQL-style operations against named, long-lived
//! database connections: per-connection FIFO dispatch with in-flight
//! accounting and a retry policy, transaction staging, a connection
//! registry, bound-parameter classification and row decoding.

pub mod backend;
pub mod bind;
pub mod text;
pub mod decode;
pub mod policy;
pub mod connection;
pub mod registry;
pub mod staging;
pub mod reply;
