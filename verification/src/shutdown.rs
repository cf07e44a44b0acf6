//! The coordinated shutdown handshake.
//!
//! A running service moves through three states: it serves connections, a
//! shutdown request marks it stop-requested, and the control routine
//! acknowledges the request and stops it for good. The shutdown procedure
//! drives the first transition; the control routine, polling the flag from
//! its own task, drives the second; whoever waits for the service to end
//! polls for the terminal state.

use vstd::prelude::*;

verus! {

/// The life cycle of a running service, shared between the connection
/// workers and the control routine.
#[derive(Clone, Copy, Debug, PartialEq, Eq, Structural)]
pub enum ShutdownFlag {
    /// The service accepts and serves connections.
    Running,
    /// A shutdown was requested and the control routine has yet to
    /// acknowledge it.
    StopRequested,
    /// The control routine has wound down. Terminal.
    Stopped,
}

/// Where a shutdown request takes the flag: it moves `Running` to
/// `StopRequested` and leaves anything else alone.
pub open spec fn step_request(f: ShutdownFlag) -> ShutdownFlag {
    match f {
        ShutdownFlag::Running => ShutdownFlag::StopRequested,
        ShutdownFlag::StopRequested => ShutdownFlag::StopRequested,
        ShutdownFlag::Stopped => ShutdownFlag::Stopped,
    }
}

/// Where the control routine's acknowledgement takes the flag: a pending
/// request becomes `Stopped`; without one nothing changes.
pub open spec fn step_acknowledge(f: ShutdownFlag) -> ShutdownFlag {
    match f {
        ShutdownFlag::Running => ShutdownFlag::Running,
        ShutdownFlag::StopRequested => ShutdownFlag::Stopped,
        ShutdownFlag::Stopped => ShutdownFlag::Stopped,
    }
}

impl ShutdownFlag {
    /// A fresh service is running.
    pub fn new() -> (f: Self)
        ensures
            f == ShutdownFlag::Running,
    {
        ShutdownFlag::Running
    }

    /// Asks the service to stop.
    pub fn request_stop(&mut self)
        ensures
            *final(self) == step_request(*old(self)),
    {
        match *self {
            ShutdownFlag::Running => {
                *self = ShutdownFlag::StopRequested;
            },
            _ => {},
        }
    }

    /// The control routine acknowledges a pending request and stops.
    pub fn acknowledge_stop(&mut self)
        ensures
            *final(self) == step_acknowledge(*old(self)),
    {
        match *self {
            ShutdownFlag::StopRequested => {
                *self = ShutdownFlag::Stopped;
            },
            _ => {},
        }
    }

    /// Whether a stop has been requested, for the control routine's poll.
    pub fn stop_requested(&self) -> (r: bool)
        ensures
            r == (*self is StopRequested),
    {
        match *self {
            ShutdownFlag::StopRequested => true,
            _ => false,
        }
    }

    /// Whether the service has reached its terminal state, for whoever
    /// waits on the shutdown to finish.
    pub fn is_stopped(&self) -> (r: bool)
        ensures
            r == (*self is Stopped),
    {
        match *self {
            ShutdownFlag::Stopped => true,
            _ => false,
        }
    }
}

/// Law: requesting a stop is idempotent — a repeated request, from the same
/// or another client, changes nothing.
pub proof fn lemma_request_stop_idempotent(f: ShutdownFlag)
    ensures
        step_request(step_request(f)) == step_request(f),
{
}

/// Law: the terminal state is stable — neither a further request nor a
/// further acknowledgement moves a stopped service.
pub proof fn lemma_stopped_is_terminal(f: ShutdownFlag)
    requires
        f is Stopped,
    ensures
        step_request(f) is Stopped,
        step_acknowledge(f) is Stopped,
{
}

/// Law: the handshake terminates — once a request has been made and the
/// control routine has acknowledged it, the service is stopped, whatever
/// state it started from.
pub proof fn lemma_handshake_terminates(f: ShutdownFlag)
    ensures
        step_acknowledge(step_request(f)) is Stopped,
{
}

} // verus!
