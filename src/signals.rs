//! Mapping of received operating-system signals to control requests.

use crate::lifecycle::{next, Action, Controller, Event};
use vstd::prelude::*;

verus! {

/// Relies on `signal_hook::consts::SIGHUP`, re-exported from libc: 1 on every Unix.
#[verifier::external_body]
fn sighup() -> (r: i32)
    ensures
        r == 1,
{
    signal_hook::consts::SIGHUP
}

/// Relies on `signal_hook::consts::SIGINT`, re-exported from libc: 2 on every Unix.
#[verifier::external_body]
fn sigint() -> (r: i32)
    ensures
        r == 2,
{
    signal_hook::consts::SIGINT
}

/// Relies on `signal_hook::consts::SIGQUIT`, re-exported from libc: 3 on every Unix.
#[verifier::external_body]
fn sigquit() -> (r: i32)
    ensures
        r == 3,
{
    signal_hook::consts::SIGQUIT
}

/// Relies on `signal_hook::consts::SIGTERM`, re-exported from libc: 15 on every Unix.
#[verifier::external_body]
fn sigterm() -> (r: i32)
    ensures
        r == 15,
{
    signal_hook::consts::SIGTERM
}

/// The hangup signal's number.
pub const HANGUP: i32 = 1;

/// The interrupt signal's number.
pub const INTERRUPT: i32 = 2;

/// The quit signal's number.
pub const QUIT: i32 = 3;

/// The terminate signal's number.
pub const TERMINATE: i32 = 15;

/// What the daemon is asked to do by a signal.
#[derive(Clone, Copy, Debug, PartialEq, Eq, Structural)]
pub enum ControlRequest {
    Shutdown,
    Reload,
}

/// A signal outside the set that the daemon listens for.
#[derive(Clone, Copy, Debug, PartialEq, Eq, Structural)]
pub struct UnrecognizedSignal {
    pub signal: i32,
}

/// The termination signals: interrupt, terminate and quit.
pub open spec fn is_termination_signal(signal: i32) -> bool {
    signal == INTERRUPT || signal == TERMINATE || signal == QUIT
}

/// The request that a signal stands for, if it is one the daemon listens for.
pub open spec fn request_of(signal: i32) -> Option<ControlRequest> {
    if is_termination_signal(signal) {
        Some(ControlRequest::Shutdown)
    } else if signal == HANGUP {
        Some(ControlRequest::Reload)
    } else {
        None
    }
}

/// The signals the daemon registers for: terminate, interrupt, quit, hangup.
pub fn control_signals() -> (r: Vec<i32>)
    ensures
        r@ == seq![TERMINATE, INTERRUPT, QUIT, HANGUP],
{
    let mut r: Vec<i32> = Vec::new();
    r.push(sigterm());
    r.push(sigint());
    r.push(sigquit());
    r.push(sighup());
    assert(r@ =~= seq![TERMINATE, INTERRUPT, QUIT, HANGUP]);
    r
}

/// Maps a received signal to the controller call it requests. Termination
/// signals ask for a shutdown, the hangup signal for a reload; any other
/// signal is reported as unrecognized.
pub fn classify_signal(signal: i32) -> (r: Result<ControlRequest, UnrecognizedSignal>)
    ensures
        request_of(signal) matches Some(q) ==> r == Ok::<ControlRequest, UnrecognizedSignal>(q),
        request_of(signal) is None ==> r == Err::<ControlRequest, UnrecognizedSignal>(
            UnrecognizedSignal { signal },
        ),
{
    if signal == sigterm() || signal == sigint() || signal == sigquit() {
        Ok(ControlRequest::Shutdown)
    } else if signal == sighup() {
        Ok(ControlRequest::Reload)
    } else {
        Err(UnrecognizedSignal { signal })
    }
}

/// The controller event that a request stands for.
pub open spec fn event_of(q: ControlRequest) -> Event {
    match q {
        ControlRequest::Shutdown => Event::ShutdownRequested,
        ControlRequest::Reload => Event::ReloadRequested,
    }
}

/// Hands a received signal to the controller: a termination signal becomes
/// a shutdown request and the hangup signal a reload request. Any other
/// signal leaves the controller as it is and is returned as unrecognized.
pub fn deliver_signal(c: &mut Controller, signal: i32) -> (r: Result<Action, UnrecognizedSignal>)
    requires
        old(c).wf(),
    ensures
        final(c).wf(),
        match request_of(signal) {
            Some(q) => r matches Ok(a) && (final(c)@, a) == next(old(c)@, event_of(q)),
            None => r == Err::<Action, UnrecognizedSignal>(UnrecognizedSignal { signal })
                && final(c)@ == old(c)@,
        },
{
    match classify_signal(signal) {
        Ok(ControlRequest::Shutdown) => Ok(c.step(Event::ShutdownRequested)),
        Ok(ControlRequest::Reload) => Ok(c.step(Event::ReloadRequested)),
        Err(u) => Err(u),
    }
}

} // verus!
