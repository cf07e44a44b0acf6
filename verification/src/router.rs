//! The per-connection dispatch router.
//!
//! Each request on the wire is a procedure name followed by that procedure's
//! arguments; each response is one outer-layer `Result` whose failure branch
//! carries the framework's own errors and whose success branch carries the
//! procedure's return value. The router reads one request at a time, hands
//! known names to the service, and answers unknown names itself — the
//! connection stays open. An embedding runs the loop: it moves bytes between
//! the transport and the two streams, feeds each request through
//! [`route_one`], and performs what the outcome asks of it.

use vstd::prelude::*;

use crate::deserialize::Deserialize;
use crate::errors::RPCError;
use crate::serialize::Serialize;
use crate::stream::MemStream;
use crate::wire::{truncated, Wire};

verus! {

/// What one dispatched request asks of the runtime.
pub enum DispatchOutcome {
    /// A complete response was written; the connection goes on.
    Replied,
    /// The request's arguments are not all buffered yet and the peer may
    /// still send the rest: nothing was written, no state changed; retry the
    /// request once more input is available.
    NeedMoreInput,
    /// The procedure asked the service to stop: the runtime must wait until
    /// the shutdown flag is stopped, then send the reply that
    /// [`encode_pending_reply`] writes.
    ShutdownPending,
}

/// What the router decided for one request.
pub enum RouteOutcome {
    /// A response was written; the connection goes on.
    Replied,
    /// A response was written, but the stream is desynchronized: close the
    /// connection once the response is flushed.
    RepliedClosing,
    /// The request is not fully buffered and the peer may still send the
    /// rest: read more input and retry from the same request boundary.
    NeedMoreInput,
    /// Clean end of stream between requests: the peer is done; close
    /// silently.
    HangUp,
    /// As [`DispatchOutcome::ShutdownPending`]: reply after the stop.
    ShutdownPending,
}

/// The outer-layer failure that answers a request for an unknown procedure.
pub open spec fn not_available_reply() -> Seq<u8> {
    Err::<(), RPCError>(RPCError::NotAvailable).wire()
}

/// The outer-layer failure that answers a request whose bytes could not be
/// decoded.
pub open spec fn serialization_failure_reply() -> Seq<u8> {
    Err::<(), RPCError>(RPCError::SerializationError).wire()
}

/// The outer-layer success around a unit return value: the reply that a
/// deferred shutdown request finally gets.
pub open spec fn ok_unit_reply() -> Seq<u8> {
    Ok::<(), RPCError>(()).wire()
}

/// A procedure set bound to its two kinds of state: one value shared by the
/// whole service and one owned by a single connection. A service author
/// implements this for the declared procedures; the framework routes
/// requests to it.
pub trait Service {
    type Global;

    type Local;

    /// The procedure names that have a registered handler.
    spec fn knows(name: Seq<char>) -> bool;

    /// Whether `name` has a registered handler.
    fn knows_name(name: &String) -> (r: bool)
        ensures
            r == Self::knows(name@),
    ;

    /// Decodes the named procedure's arguments from `input` in declared
    /// order, runs the handler against the two states, and writes the
    /// complete outer-layer response to `out`. `input_complete` says that
    /// the peer can send no further bytes.
    fn dispatch(
        name: &String,
        input_complete: bool,
        g: &mut Self::Global,
        l: &mut Self::Local,
        input: &mut MemStream,
        out: &mut MemStream,
    ) -> (r: DispatchOutcome)
        requires
            Self::knows(name@),
            old(input).wf(),
            old(out).wf(),
        ensures
            final(input).wf(),
            final(out).wf(),
            final(input).bytes() == old(input).bytes(),
            old(input).cursor() <= final(input).cursor(),
            final(out).cursor() == old(out).cursor(),
            old(out).bytes().is_prefix_of(final(out).bytes()),
            r is NeedMoreInput ==> !input_complete && final(out).bytes() == old(out).bytes()
                && *final(g) == *old(g) && *final(l) == *old(l),
            r is ShutdownPending ==> final(out).bytes() == old(out).bytes(),
            r is Replied ==> final(out).bytes().len() > old(out).bytes().len(),
    ;
}

/// Handles the one request standing at the read position of `input`: decodes
/// the procedure name, answers unknown names with the outer-layer
/// `NotAvailable` failure while keeping the connection open, and hands known
/// names to the service. A name that cannot be decoded ends the connection:
/// silently at a clean end of stream, after a failure response otherwise.
pub fn route_one<S: Service>(
    input_complete: bool,
    g: &mut S::Global,
    l: &mut S::Local,
    input: &mut MemStream,
    out: &mut MemStream,
) -> (r: RouteOutcome)
    requires
        old(input).wf(),
        old(out).wf(),
    ensures
        final(input).wf(),
        final(out).wf(),
        final(input).bytes() == old(input).bytes(),
        old(input).cursor() <= final(input).cursor(),
        final(out).cursor() == old(out).cursor(),
        old(out).bytes().is_prefix_of(final(out).bytes()),
        r is NeedMoreInput ==> !input_complete && final(out).bytes() == old(out).bytes()
            && *final(g) == *old(g) && *final(l) == *old(l),
        r is HangUp ==> input_complete && old(input).rest().len() == 0 && final(out).bytes()
            == old(out).bytes() && *final(g) == *old(g) && *final(l) == *old(l),
        r is ShutdownPending ==> final(out).bytes() == old(out).bytes(),
        r is Replied ==> final(out).bytes().len() > old(out).bytes().len(),
        // before the connection closes on an unreadable request, the failure
        // is still reported to the peer
        r is RepliedClosing ==> final(out).bytes() == old(out).bytes()
            + serialization_failure_reply() && *final(g) == *old(g) && *final(l) == *old(l),
        // a request naming an unregistered procedure yields exactly the
        // outer-layer failure carrying NotAvailable, touches no state, and
        // leaves the connection usable
        forall|n: String|
            ((#[trigger] n.wire()).is_prefix_of(old(input).rest()) && !S::knows(n@)) ==> (r
                is Replied && final(out).bytes() == old(out).bytes() + not_available_reply()
                && *final(g) == *old(g) && *final(l) == *old(l) && final(input).cursor() == old(
                input,
            ).cursor() + n.wire().len()),
        // a well-formed request for a known procedure never ends the
        // connection
        forall|n: String|
            ((#[trigger] n.wire()).is_prefix_of(old(input).rest()) && S::knows(n@)) ==> !(r
                is HangUp || r is RepliedClosing),
        // a clean end of stream between requests always hangs up
        (input_complete && old(input).rest().len() == 0) ==> r is HangUp,
        // a request that breaks off while the peer may still send waits
        (!input_complete && truncated::<String>(old(input).rest())) ==> r is NeedMoreInput,
        // a final request that no procedure name can begin is reported and
        // the connection closed
        (input_complete && old(input).rest().len() > 0 && (forall|n: String|
            !(#[trigger] n.wire()).is_prefix_of(old(input).rest()))) ==> r is RepliedClosing,
        // the reply is deferred only for a real request to a known procedure
        r is ShutdownPending ==> (exists|n: String|
            (#[trigger] n.wire()).is_prefix_of(old(input).rest()) && S::knows(n@)),
{
    let ghost entry = *input;
    let at_boundary = input.remaining() == 0;
    let name = match String::decode_stream(input) {
        Ok(n) => n,
        Err(e) => {
            if input_complete {
                if at_boundary {
                    // the peer closed cleanly between requests
                    return RouteOutcome::HangUp;
                }
                // a final, unreadable request: report it and close
                let resp: Result<(), RPCError> = Err(RPCError::SerializationError);
                let _ = resp.encode_stream(out);
                return RouteOutcome::RepliedClosing;
            }
            match e {
                RPCError::StreamClosed => {
                    // the rest of the name may still arrive
                    return RouteOutcome::NeedMoreInput;
                },
                _ => {
                    // the name's bytes are malformed; more input cannot
                    // mend them: report and close
                    let resp: Result<(), RPCError> = Err(RPCError::SerializationError);
                    let _ = resp.encode_stream(out);
                    return RouteOutcome::RepliedClosing;
                },
            }
        },
    };
    proof {
        assert(name.wire().is_prefix_of(entry.rest())) by {
            assert(name.accepts(entry.rest().take(name.wire().len() as int)));
            assert(name.wire() =~= entry.rest().subrange(0, name.wire().len() as int));
        }
        assert(!truncated::<String>(entry.rest())) by {
            if truncated::<String>(entry.rest()) {
                crate::wire::lemma_string_truncated_shape(entry.rest());
            }
        }
    }
    if !S::knows_name(&name) {
        let resp: Result<(), RPCError> = Err(RPCError::NotAvailable);
        let _ = resp.encode_stream(out);
        proof {
            assert forall|n: String|
                (#[trigger] n.wire()).is_prefix_of(entry.rest()) implies n.wire() == name.wire()
                    && n@ == name@ by {};
        }
        return RouteOutcome::Replied;
    }
    match S::dispatch(&name, input_complete, g, l, input, out) {
        DispatchOutcome::Replied => RouteOutcome::Replied,
        DispatchOutcome::NeedMoreInput => RouteOutcome::NeedMoreInput,
        DispatchOutcome::ShutdownPending => RouteOutcome::ShutdownPending,
    }
}

/// What a handler does when its arguments cannot be decoded: wait for the
/// rest of the request if it may still arrive, otherwise report the failure
/// in the outer layer and keep the connection open.
pub fn argument_failure(e: RPCError, input_complete: bool, out: &mut MemStream) -> (r:
    DispatchOutcome)
    requires
        old(out).wf(),
        e == RPCError::StreamClosed || e == RPCError::SerializationError,
    ensures
        final(out).wf(),
        final(out).cursor() == old(out).cursor(),
        old(out).bytes().is_prefix_of(final(out).bytes()),
        r is NeedMoreInput <==> (e == RPCError::StreamClosed && !input_complete),
        r is NeedMoreInput ==> final(out).bytes() == old(out).bytes(),
        !(r is NeedMoreInput) ==> r is Replied && final(out).bytes() == old(out).bytes()
            + serialization_failure_reply(),
{
    if !input_complete {
        match e {
            RPCError::StreamClosed => {
                return DispatchOutcome::NeedMoreInput;
            },
            _ => {},
        }
    }
    let resp: Result<(), RPCError> = Err(RPCError::SerializationError);
    let _ = resp.encode_stream(out);
    DispatchOutcome::Replied
}

/// Writes the reply that a deferred shutdown request gets once the service
/// has stopped: the outer success layer around the unit return value.
pub fn encode_pending_reply(out: &mut MemStream) -> (r: Result<(), RPCError>)
    requires
        old(out).wf(),
    ensures
        final(out).wf(),
        r is Ok,
        final(out).bytes() == old(out).bytes() + ok_unit_reply(),
        final(out).cursor() == old(out).cursor(),
{
    let resp: Result<(), RPCError> = Ok(());
    resp.encode_stream(out)
}

} // verus!
