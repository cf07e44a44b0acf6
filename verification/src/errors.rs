//! The closed error taxonomy shared by server and client.

use vstd::prelude::*;

verus! {

/// Every failure of the framework falls in one of these kinds, used
/// identically on both ends of a connection and carried across the wire.
#[derive(Clone, Copy, Debug, PartialEq, Eq, Structural)]
pub enum RPCError {
    /// The requested procedure name has no registered handler.
    NotAvailable,
    /// A payload could not be decoded into its declared type: malformed
    /// length, invalid UTF-8, or a discriminant out of range.
    SerializationError,
    /// The peer closed the connection (clean end of stream) where more
    /// data was expected.
    StreamClosed,
    /// Any other transport failure (reset, timeout, and the like).
    UnknownError,
}

} // verus!
