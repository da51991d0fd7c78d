//! A verified core for a line-delimited request/response protocol.
//!
//! The library turns raw byte buffers into newline-delimited frames and back
//! (plain, multiplexed and streaming wire formats), correlates outstanding
//! requests with their responses under two disciplines (strict pipelining and
//! explicit multiplexing), and layers behaviour onto a connection through
//! middleware (validation, keep-alive interception, timeouts).
//!
//! All I/O stays outside: the types here are state machines over byte
//! buffers and plain values, and every function carries a contract that
//! pins down what it does to them.

pub mod buffer;
pub mod client;
pub mod codec;
pub mod empty;
pub mod error;
pub mod low_level_transport;
pub mod multiplexed;
pub mod pending;
pub mod pingpong;
pub mod service;
pub mod streaming;
pub mod timeout;
pub mod transport_version2;
pub mod utf8;
pub mod validate;
