//! A small framework for TCP servers that speak a framed, line-oriented
//! request/response protocol, together with one concrete protocol: a
//! primality service answering JSON-encoded queries.
//!
//! The verified core is the framing of a byte stream into discrete payloads,
//! the protocol-handler abstraction, the per-connection state machine with
//! its disconnect-on-malformed policy, and the primality arithmetic. The
//! sockets themselves, and the task that is spawned per connection, live in
//! an unverified shell around this library.

pub mod errors;
pub mod protocol;
pub mod framing;
pub mod primality;
pub mod connection;
pub mod service;
