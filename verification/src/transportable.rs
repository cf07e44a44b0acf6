//! Types that travel the wire in both directions.

use vstd::prelude::*;

use crate::deserialize::Deserialize;
use crate::errors::RPCError;
use crate::serialize::Serialize;
use crate::stream::MemStream;

verus! {

/// A value that can be both written to and read back from a stream.
pub trait Transportable: Serialize + Deserialize {
}

impl Transportable for () {
}

impl Transportable for bool {
}

impl Transportable for u8 {
}

impl Transportable for i8 {
}

impl Transportable for u16 {
}

impl Transportable for i16 {
}

impl Transportable for u32 {
}

impl Transportable for i32 {
}

impl Transportable for u64 {
}

impl Transportable for i64 {
}

impl Transportable for String {
}

impl Transportable for RPCError {
}

impl<T: Transportable> Transportable for Option<T> {
}

impl<T: Transportable> Transportable for Result<T, RPCError> {
}

/// Law: a round trip through the wire is the identity. Encoding any
/// transportable value onto a stream with a fresh read position and decoding
/// from that position succeeds and returns the value unchanged.
pub fn encode_then_decode<T: Transportable>(x: &T, s: &mut MemStream) -> (r: Result<T, RPCError>)
    requires
        old(s).wf(),
        old(s).rest().len() == 0,
    ensures
        final(s).wf(),
        r matches Ok(w) && w.model() == x.model(),
{
    let _ = x.encode_stream(s);
    proof {
        assert(s.rest() =~= x.wire());
        assert(x.wire().is_prefix_of(s.rest()));
    }
    T::decode_stream(s)
}

} // verus!
