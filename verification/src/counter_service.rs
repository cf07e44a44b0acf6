//! A small complete service on the framework: a shared counter, an echo, a
//! per-connection cache, and the shutdown procedure.
//!
//! Its handlers are ordinary verified functions over plain state; the
//! `Service` implementation binds them to their names on the wire. An
//! embedding that runs it over sockets shares one `CounterGlobal` (behind
//! its own lock) among all connection workers and gives each connection a
//! `CounterLocal` of its own.

use vstd::prelude::*;

use crate::deserialize::Deserialize;
use crate::errors::RPCError;
use crate::router::{argument_failure, ok_unit_reply, DispatchOutcome, Service};
use crate::serialize::Serialize;
use crate::shutdown::{step_request, ShutdownFlag};
use crate::stream::MemStream;
use crate::wire::Wire;

verus! {

/// State shared by every connection: the counter and the shutdown flag.
pub struct CounterGlobal {
    pub counter: u64,
    pub alive: ShutdownFlag,
}

/// State owned by one connection: a single cached string.
pub struct CounterLocal {
    pub cache: String,
}

/// The procedure set: echo, increment, decrement, cache, fetch_cache,
/// shutdown.
pub struct CounterService;

impl CounterGlobal {
    /// A fresh shared state: counter at zero, service running.
    pub fn new() -> (g: Self)
        ensures
            g.counter == 0,
            g.alive == ShutdownFlag::Running,
    {
        CounterGlobal { counter: 0, alive: ShutdownFlag::new() }
    }
}

impl CounterLocal {
    /// A fresh connection state with an empty cache.
    pub fn new() -> (l: Self)
        ensures
            l.cache@ == Seq::<char>::empty(),
    {
        CounterLocal { cache: String::new() }
    }
}

/// One more, wrapping around at the top of the range.
pub open spec fn wrap_inc(x: u64) -> u64 {
    if x == u64::MAX {
        0u64
    } else {
        (x + 1) as u64
    }
}

/// One less, wrapping around at the bottom of the range.
pub open spec fn wrap_dec(x: u64) -> u64 {
    if x == 0u64 {
        u64::MAX
    } else {
        (x - 1) as u64
    }
}

/// The counter after `k` increment calls against a fresh shared state, in
/// whatever order the connection workers were serialized.
pub open spec fn counter_after(k: nat) -> u64
    decreases k,
{
    if k == 0 {
        0u64
    } else {
        wrap_inc(counter_after((k - 1) as nat))
    }
}

/// Law: increments are never lost. However many clients issue however many
/// increment calls, as long as the calls are serialized by the shared
/// state's guard, `k` calls in all leave the counter at exactly `k` — up to
/// the width of the counter.
pub proof fn lemma_no_lost_increments(k: nat)
    requires
        k <= u64::MAX,
    ensures
        counter_after(k) == k,
    decreases k,
{
    if k > 0 {
        lemma_no_lost_increments((k - 1) as nat);
    }
}

/// Returns its argument unchanged.
pub fn echo(msg: u64) -> (r: u64)
    ensures
        r == msg,
{
    msg
}

/// Adds one to the shared counter and returns the new value.
pub fn increment(g: &mut CounterGlobal) -> (r: u64)
    ensures
        final(g).counter == wrap_inc(old(g).counter),
        final(g).alive == old(g).alive,
        r == final(g).counter,
{
    if g.counter == u64::MAX {
        g.counter = 0;
    } else {
        g.counter = g.counter + 1;
    }
    g.counter
}

/// Takes one from the shared counter and returns the new value.
pub fn decrement(g: &mut CounterGlobal) -> (r: u64)
    ensures
        final(g).counter == wrap_dec(old(g).counter),
        final(g).alive == old(g).alive,
        r == final(g).counter,
{
    if g.counter == 0 {
        g.counter = u64::MAX;
    } else {
        g.counter = g.counter - 1;
    }
    g.counter
}

/// Stores the given string in the connection's own cache.
pub fn cache_store(l: &mut CounterLocal, msg: String) -> (r: u64)
    ensures
        final(l).cache@ == msg@,
        r == 1,
{
    l.cache = msg;
    1
}

/// Reads the connection's cache back.
pub fn fetch_cache(l: &CounterLocal) -> (r: String)
    ensures
        r@ == l.cache@,
{
    l.cache.clone()
}

/// Whether the decoded name is the given literal.
fn name_is(name: &String, lit: &str) -> (r: bool)
    ensures
        r == (name@ == lit@),
{
    let owned: String = lit.to_owned();
    name.eq(&owned)
}

impl Service for CounterService {
    type Global = CounterGlobal;

    type Local = CounterLocal;

    open spec fn knows(name: Seq<char>) -> bool {
        ||| name == "echo"@
        ||| name == "increment"@
        ||| name == "decrement"@
        ||| name == "cache"@
        ||| name == "fetch_cache"@
        ||| name == "shutdown"@
    }

    fn knows_name(name: &String) -> (r: bool) {
        if name_is(name, "echo") {
            true
        } else if name_is(name, "increment") {
            true
        } else if name_is(name, "decrement") {
            true
        } else if name_is(name, "cache") {
            true
        } else if name_is(name, "fetch_cache") {
            true
        } else {
            name_is(name, "shutdown")
        }
    }

    fn dispatch(
        name: &String,
        input_complete: bool,
        g: &mut CounterGlobal,
        l: &mut CounterLocal,
        input: &mut MemStream,
        out: &mut MemStream,
    ) -> (r: DispatchOutcome)
        ensures
            name@ == "echo"@ ==> ({
                &&& *final(g) == *old(g)
                &&& *final(l) == *old(l)
                &&& forall|a: u64|
                    (#[trigger] a.wire()).is_prefix_of(old(input).rest()) ==> (r is Replied
                        && final(out).bytes() == old(out).bytes() + Ok::<u64, RPCError>(a).wire()
                        && final(input).cursor() == old(input).cursor() + a.wire().len())
            }),
            name@ == "increment"@ ==> ({
                &&& r is Replied
                &&& final(input).cursor() == old(input).cursor()
                &&& final(g).counter == wrap_inc(old(g).counter)
                &&& final(g).alive == old(g).alive
                &&& *final(l) == *old(l)
                &&& final(out).bytes() == old(out).bytes() + Ok::<u64, RPCError>(
                    wrap_inc(old(g).counter),
                ).wire()
            }),
            name@ == "decrement"@ ==> ({
                &&& r is Replied
                &&& final(input).cursor() == old(input).cursor()
                &&& final(g).counter == wrap_dec(old(g).counter)
                &&& final(g).alive == old(g).alive
                &&& *final(l) == *old(l)
                &&& final(out).bytes() == old(out).bytes() + Ok::<u64, RPCError>(
                    wrap_dec(old(g).counter),
                ).wire()
            }),
            name@ == "cache"@ ==> ({
                &&& *final(g) == *old(g)
                &&& forall|m: String|
                    (#[trigger] m.wire()).is_prefix_of(old(input).rest()) ==> (r is Replied
                        && final(l).cache@ == m@ && final(out).bytes() == old(out).bytes() + Ok::<
                        u64,
                        RPCError,
                    >(1u64).wire() && final(input).cursor() == old(input).cursor()
                        + m.wire().len())
            }),
            name@ == "fetch_cache"@ ==> ({
                &&& r is Replied
                &&& final(input).cursor() == old(input).cursor()
                &&& *final(g) == *old(g)
                &&& *final(l) == *old(l)
                &&& final(out).bytes() == old(out).bytes() + Ok::<String, RPCError>(
                    old(l).cache,
                ).wire()
            }),
            name@ == "shutdown"@ ==> ({
                &&& final(input).cursor() == old(input).cursor()
                &&& final(g).alive == step_request(old(g).alive)
                &&& final(g).counter == old(g).counter
                &&& *final(l) == *old(l)
                &&& (old(g).alive is Stopped ==> r is Replied && final(out).bytes() == old(
                    out,
                ).bytes() + ok_unit_reply())
                &&& (!(old(g).alive is Stopped) ==> r is ShutdownPending && final(out).bytes()
                    == old(out).bytes())
            }),
    {
        proof {
            reveal_strlit("echo");
            reveal_strlit("increment");
            reveal_strlit("decrement");
            reveal_strlit("cache");
            reveal_strlit("fetch_cache");
            reveal_strlit("shutdown");
            // the six names are pairwise distinct: all lengths differ but
            // for increment and decrement, which differ in their first letter
            assert("echo"@.len() == 4);
            assert("increment"@.len() == 9);
            assert("decrement"@.len() == 9);
            assert("cache"@.len() == 5);
            assert("fetch_cache"@.len() == 11);
            assert("shutdown"@.len() == 8);
            assert("increment"@[0] == 'i');
            assert("decrement"@[0] == 'd');
        }
        if name_is(name, "echo") {
            match u64::decode_stream(input) {
                Ok(a) => {
                    let resp: Result<u64, RPCError> = Ok(echo(a));
                    let _ = resp.encode_stream(out);
                    DispatchOutcome::Replied
                },
                Err(e) => argument_failure(e, input_complete, out),
            }
        } else if name_is(name, "increment") {
            let v = increment(g);
            let resp: Result<u64, RPCError> = Ok(v);
            let _ = resp.encode_stream(out);
            DispatchOutcome::Replied
        } else if name_is(name, "decrement") {
            let v = decrement(g);
            let resp: Result<u64, RPCError> = Ok(v);
            let _ = resp.encode_stream(out);
            DispatchOutcome::Replied
        } else if name_is(name, "cache") {
            match String::decode_stream(input) {
                Ok(m) => {
                    let v = cache_store(l, m);
                    let resp: Result<u64, RPCError> = Ok(v);
                    let _ = resp.encode_stream(out);
                    DispatchOutcome::Replied
                },
                Err(e) => argument_failure(e, input_complete, out),
            }
        } else if name_is(name, "fetch_cache") {
            let v = fetch_cache(l);
            let resp: Result<String, RPCError> = Ok(v);
            let _ = resp.encode_stream(out);
            DispatchOutcome::Replied
        } else {
            // of the known names only shutdown is left
            g.alive.request_stop();
            if g.alive.is_stopped() {
                let resp: Result<(), RPCError> = Ok(());
                let _ = resp.encode_stream(out);
                DispatchOutcome::Replied
            } else {
                DispatchOutcome::ShutdownPending
            }
        }
    }
}

} // verus!
