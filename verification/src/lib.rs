//! Core of a request/response RPC framework over raw byte streams.
//!
//! The crate provides a self-describing binary wire codec for primitives,
//! strings, optional and fallible values, a closed error taxonomy, a
//! per-connection dispatch router, the client-side request/response framing,
//! and the coordinated shutdown handshake. All of it is verified; an
//! embedding supplies the transport (e.g. TCP sockets) around it.

pub mod client;
pub mod counter_service;
pub mod deserialize;
pub mod errors;
pub mod router;
pub mod serialize;
pub mod shutdown;
pub mod stream;
pub mod transportable;
pub mod wire;

pub use deserialize::Deserialize;
pub use errors::RPCError;
pub use serialize::Serialize;
pub use transportable::Transportable;
