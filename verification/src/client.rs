//! The client side of one remote call.
//!
//! A call writes the procedure name and then each argument, flushes, and
//! reads back one outer-layer `Result` whose success branch carries the
//! procedure's return value. An embedding owns the connection (with its
//! bounded-retry establishment) and moves the bytes; the framing and its
//! meaning live here.

use vstd::prelude::*;

use crate::deserialize::Deserialize;
use crate::errors::RPCError;
use crate::serialize::Serialize;
use crate::stream::MemStream;
use crate::wire::Wire;

verus! {

/// Writes one complete request: the procedure name, then the arguments in
/// declared order (the argument tuple encodes itself field by field).
pub fn encode_request<T: Serialize>(name: &String, args: &T, out: &mut MemStream) -> (r: Result<
    (),
    RPCError,
>)
    requires
        old(out).wf(),
    ensures
        final(out).wf(),
        r is Ok,
        final(out).bytes() == old(out).bytes() + name.wire() + args.wire(),
        final(out).cursor() == old(out).cursor(),
{
    let _ = name.encode_stream(out);
    let r = args.encode_stream(out);
    proof {
        assert(out.bytes() =~= old(out).bytes() + name.wire() + args.wire());
    }
    r
}

/// Reads one response and collapses its two layers the way a caller sees
/// them: a failure the peer reported and a failure to decode the response
/// read the same, and a success carries the procedure's return value.
pub fn decode_response<T: Deserialize>(input: &mut MemStream) -> (r: Result<T, RPCError>)
    requires
        old(input).wf(),
    ensures
        final(input).wf(),
        final(input).bytes() == old(input).bytes(),
        old(input).cursor() <= final(input).cursor(),
        forall|v: Result<T, RPCError>|
            (#[trigger] v.wire()).is_prefix_of(old(input).rest()) ==> (match v {
                Ok(t) => r matches Ok(w) && w.model() == t.model(),
                Err(e) => r == Err::<T, RPCError>(e),
            }),
{
    match Result::<T, RPCError>::decode_stream(input) {
        Ok(Ok(t)) => Ok(t),
        Ok(Err(e)) => Err(e),
        Err(e) => Err(e),
    }
}

} // verus!
