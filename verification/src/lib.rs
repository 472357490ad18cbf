//! DNS cookies that any server sharing the secret can validate.
//!
//! A server cookie binds a version, an algorithm, a reserved field, a
//! timestamp and the client's own cookie to a 64-bit keyed hash; a client
//! cookie binds the two addresses of a conversation to one. This crate
//! builds both, encodes them in their fixed wire layouts and validates what
//! comes back from the wire, against a list of secrets that are in use.
//!
//! Every function is a pure function of its arguments: there is no state
//! and no I/O. The contracts are stated over the views of the types and
//! proved; the keyed hash itself and the calendar range of a timestamp are
//! taken from the crates that compute them.

pub mod client;
pub mod error;
pub mod keyed_hash;
pub mod server;
pub mod tags;
pub mod timestamp;
pub mod wire;

pub use client::{Client, IpAddr};
pub use error::Error;
pub use server::Server;
pub use tags::{Algorithm, Version};
pub use timestamp::Timestamp;
