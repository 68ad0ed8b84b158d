//! Session engine of a client for a broker-hosted trading gateway.
//!
//! The gateway speaks length-prefixed protobuf frames over one TLS stream.
//! This crate holds the protocol logic as verified, synchronous code: the
//! frame codec, the correlation of responses with waiting callers, the
//! decisions of the I/O task and of the session on top of it. Sockets,
//! timers and channels live with the caller, which feeds events in and
//! carries the returned actions out.

pub mod builder;
pub mod client;
pub mod codec;
pub mod connection;
pub mod credentials;
pub mod error;
pub mod io_task;
pub mod message;
pub mod options;
pub mod pending;
pub mod processor;
pub mod ratelimit;
pub mod types;
pub mod util;
pub mod varint;
