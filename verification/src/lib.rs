//! A signaling framework: rooms made of peers that exchange requests,
//! responses and notifications over transports.
//!
//! The library holds the decision logic of the framework: the wire format of
//! messages, the table of requests that wait for an answer, the life cycle of
//! a peer and the registry of a room. Each of them is stated by contracts and
//! proved by Verus; the asynchronous plumbing that drives them lives outside.

pub mod error;
pub mod json;
pub mod message;
mod utils;
pub mod peer;
pub mod room;
