//! Typed signal events and the OS signal identifiers they stand for.
use vstd::prelude::*;

verus! {

/// The identifiers of the job-control signals, which differ between
/// platforms: 0 stands for stop, 1 for continue, 2 for terminal stop.
pub uninterp spec fn job_sig(k: int) -> i32;

/// Relies on `libc::SIGHUP`: 1 on every platform, distinct from the
/// job-control signals.
#[verifier::external_body]
pub(crate) fn sighup() -> (r: i32)
    ensures
        r == 1,
        r != job_sig(0),
        r != job_sig(1),
        r != job_sig(2),
{
    libc::SIGHUP
}

/// Relies on `libc::SIGINT`: 2 on every platform, distinct from the
/// job-control signals.
#[verifier::external_body]
fn sigint() -> (r: i32)
    ensures
        r == 2,
        r != job_sig(0),
        r != job_sig(1),
        r != job_sig(2),
{
    libc::SIGINT
}

/// Relies on `libc::SIGTERM`: 15 on every platform, distinct from the
/// job-control signals.
#[verifier::external_body]
pub(crate) fn sigterm() -> (r: i32)
    ensures
        r == 15,
        r != job_sig(0),
        r != job_sig(1),
        r != job_sig(2),
{
    libc::SIGTERM
}

/// Relies on `libc::SIGCONT`: a platform's value, none of 1, 2, 15 or the
/// other job-control signals.
#[verifier::external_body]
pub(crate) fn sigcont() -> (r: i32)
    ensures
        r == job_sig(1),
        r != 1 && r != 2 && r != 15,
        r != job_sig(0),
        r != job_sig(2),
{
    libc::SIGCONT
}

/// Relies on `libc::SIGSTOP`: a platform's value, none of 1, 2, 15 or the
/// other job-control signals.
#[verifier::external_body]
fn sigstop() -> (r: i32)
    ensures
        r == job_sig(0),
        r != 1 && r != 2 && r != 15,
        r != job_sig(1),
        r != job_sig(2),
{
    libc::SIGSTOP
}

/// Relies on `libc::SIGTSTP`: a platform's value, none of 1, 2, 15 or the
/// other job-control signals.
#[verifier::external_body]
pub(crate) fn sigtstp() -> (r: i32)
    ensures
        r == job_sig(2),
        r != 1 && r != 2 && r != 15,
        r != job_sig(0),
        r != job_sig(1),
{
    libc::SIGTSTP
}

/// The identifier of the interrupt signal.
pub open spec fn sig_int() -> i32 {
    2
}

/// The identifier of the terminal signal that makes a worker stop listening.
pub fn interrupt_sig() -> (r: i32)
    ensures
        r == sig_int(),
{
    sigint()
}

/// A job-control related signal event.
#[derive(Copy, Clone, Debug, PartialEq, Eq, Structural)]
pub enum JobControlEvent {
    Stop,
    Continue,
}

/// A signal event that should cause a shutdown to happen.
#[derive(Copy, Clone, Debug, PartialEq, Eq, Structural)]
pub enum ShutdownEvent {
    Hangup,
    Term,
    Interrupt,
}

/// A typed signal event.
#[derive(Copy, Clone, Debug, PartialEq, Eq, Structural)]
pub enum SignalEvent {
    JobControl(JobControlEvent),
    Shutdown(ShutdownEvent),
}

/// The OS signal identifier that an event stands for on the wire.
pub open spec fn sig_of(e: SignalEvent) -> i32 {
    match e {
        SignalEvent::JobControl(JobControlEvent::Stop) => job_sig(0),
        SignalEvent::JobControl(JobControlEvent::Continue) => job_sig(1),
        SignalEvent::Shutdown(ShutdownEvent::Hangup) => 1,
        SignalEvent::Shutdown(ShutdownEvent::Interrupt) => 2,
        SignalEvent::Shutdown(ShutdownEvent::Term) => 15,
    }
}

impl SignalEvent {
    /// The OS signal identifier of this event. Every event has one, and no
    /// other event has the same: no two kinds of event collide on the wire.
    pub fn as_sig(&self) -> (r: i32)
        ensures
            r == sig_of(*self),
            forall|o: SignalEvent| #[trigger] sig_of(o) == r <==> o == *self,
    {
        match self {
            SignalEvent::JobControl(JobControlEvent::Stop) => sigstop(),
            SignalEvent::JobControl(JobControlEvent::Continue) => sigcont(),
            SignalEvent::Shutdown(ShutdownEvent::Hangup) => sighup(),
            SignalEvent::Shutdown(ShutdownEvent::Interrupt) => sigint(),
            SignalEvent::Shutdown(ShutdownEvent::Term) => sigterm(),
        }
    }
}

} // verus!
