//! Decisions of the manager's two tasks: the relay that moves events from
//! the signal source onto the bus, and the supervisor that forwards them to
//! the worker until it exits.
use crate::event::{sig_of, SignalEvent};
use crate::wire::{line_of, sig_to_line_bs};
use vstd::prelude::*;

verus! {

/// What the relay task is told.
#[derive(Copy, Clone, Debug, PartialEq, Eq, Structural)]
pub enum RelayInput {
    /// What the signal source yielded: an event, or its terminal `None`.
    Source(Option<SignalEvent>),
    /// The cancellation token fired.
    Cancelled,
}

/// What the relay task does next.
#[derive(Copy, Clone, Debug, PartialEq, Eq, Structural)]
pub enum RelayAction {
    /// Publish this event on the bus.
    Publish(SignalEvent),
    /// Nothing to publish; keep waiting.
    Idle,
    /// Leave the task.
    Exit,
}

/// The relay task's state.
#[derive(Copy, Clone, Debug, PartialEq, Eq, Structural)]
pub struct Relay {
    /// The source has yielded its terminal `None` and is polled no more.
    pub source_done: bool,
    /// Cancellation has been observed.
    pub cancelled: bool,
}

impl Relay {
    /// A relay that still polls its source.
    pub fn new() -> (r: Relay)
        ensures
            !r.source_done,
            !r.cancelled,
    {
        Relay { source_done: false, cancelled: false }
    }

    /// Whether the source is still to be polled.
    pub fn polls_source(&self) -> (r: bool)
        ensures
            r == (!self.source_done && !self.cancelled),
    {
        !self.source_done && !self.cancelled
    }

    /// Decides what to do with one input. Every event is published exactly
    /// once, as it came; the source's end only stops polling it; only
    /// cancellation ends the task.
    pub fn step(&mut self, input: RelayInput) -> (r: RelayAction)
        ensures
            old(self).cancelled ==> r == RelayAction::Exit && *final(self) == *old(self),
            !old(self).cancelled ==> match input {
                RelayInput::Source(Some(e)) => r == RelayAction::Publish(e) && *final(self)
                    == *old(self),
                RelayInput::Source(None) => r == RelayAction::Idle && final(self).source_done
                    && !final(self).cancelled,
                RelayInput::Cancelled => r == RelayAction::Exit && final(self).cancelled
                    && final(self).source_done == old(self).source_done,
            },
    {
        if self.cancelled {
            return RelayAction::Exit;
        }
        match input {
            RelayInput::Source(Some(e)) => RelayAction::Publish(e),
            RelayInput::Source(None) => {
                self.source_done = true;
                RelayAction::Idle
            },
            RelayInput::Cancelled => {
                self.cancelled = true;
                RelayAction::Exit
            },
        }
    }
}

/// The process group that a redelivered signal is sent to.
#[derive(Copy, Clone, Debug, PartialEq, Eq, Structural)]
pub enum TargetGroup {
    /// The manager's own process group.
    Own,
    /// The worker's process group.
    Worker,
}

/// How the supervisor hands an event on to the worker.
#[derive(Copy, Clone, Debug, PartialEq, Eq, Structural)]
pub enum ForwardPolicy {
    /// Write a wire record to the worker's input stream.
    Relay,
    /// Send the signal itself to a process group.
    Redeliver(TargetGroup),
}

/// What the supervisor is told.
#[derive(Copy, Clone, Debug, PartialEq, Eq, Structural)]
pub enum SupervisorInput {
    /// The bus delivered an event.
    Event(SignalEvent),
    /// The subscription fell behind and this many events were skipped.
    Lagged(u64),
    /// The bus has closed; no event will come again.
    BusClosed,
    /// The worker process has exited.
    WorkerExited,
    /// Writing or flushing a record to the worker failed.
    ForwardFailed,
}

/// What the supervisor does next.
#[derive(Clone, Debug)]
pub enum SupervisorAction {
    /// Write these bytes to the worker's input stream, then flush.
    Write(Vec<u8>),
    /// Send signal `sig` to the process group `pgid` (0: the caller's own).
    SignalGroup { pgid: i32, sig: i32 },
    /// Nothing to do; keep waiting.
    Nothing,
    /// Fire the cancellation token and leave the loop.
    CancelAndExit,
    /// The worker is unreachable: fire the cancellation token, reap the
    /// worker and leave the loop with the error.
    AbortAndReap,
}

/// The process group id that a redelivered signal goes to: 0 names the
/// caller's own group.
pub open spec fn target_pgid(t: TargetGroup, worker_pgid: i32) -> i32 {
    match t {
        TargetGroup::Own => 0,
        TargetGroup::Worker => worker_pgid,
    }
}

/// What one supervisor step does: it keeps its policy and worker; an event
/// becomes one record or one redelivered signal; a lag is passed over; a
/// closed bus is no longer waited on; the worker's exit ends the loop, and
/// so does a failed forward, which also has the worker reaped.
pub open spec fn supervisor_step(
    pre: Supervisor,
    input: SupervisorInput,
    post: Supervisor,
    r: SupervisorAction,
) -> bool {
    &&& post.policy == pre.policy
    &&& post.worker_pgid == pre.worker_pgid
    &&& match input {
        SupervisorInput::Event(e) => post.bus_open == pre.bus_open && match pre.policy {
            ForwardPolicy::Relay => r is Write && r->Write_0@ == line_of(sig_of(e)),
            ForwardPolicy::Redeliver(t) => r is SignalGroup && r->pgid == target_pgid(
                t,
                pre.worker_pgid,
            ) && r->sig == sig_of(e),
        },
        SupervisorInput::Lagged(_) => r is Nothing && post.bus_open == pre.bus_open,
        SupervisorInput::BusClosed => r is Nothing && !post.bus_open,
        SupervisorInput::WorkerExited => r is CancelAndExit && post.bus_open == pre.bus_open,
        SupervisorInput::ForwardFailed => r is AbortAndReap && post.bus_open == pre.bus_open,
    }
}

/// The supervisor's state. The worker runs in a process group of its own,
/// whose id is the worker's process id.
#[derive(Copy, Clone, Debug, PartialEq, Eq, Structural)]
pub struct Supervisor {
    pub policy: ForwardPolicy,
    pub worker_pgid: i32,
    /// The bus is still open and worth waiting on.
    pub bus_open: bool,
}

impl Supervisor {
    /// The worker's group is a real process group.
    pub open spec fn wf(&self) -> bool {
        self.worker_pgid > 0
    }

    /// A supervisor for the worker with process id `worker_pid`.
    pub fn new(policy: ForwardPolicy, worker_pid: i32) -> (r: Supervisor)
        requires
            worker_pid > 0,
        ensures
            r.wf(),
            r.policy == policy,
            r.worker_pgid == worker_pid,
            r.bus_open,
    {
        Supervisor { policy, worker_pgid: worker_pid, bus_open: true }
    }

    /// Decides what to do with one input. Each event is forwarded at once,
    /// alone and as it came, so the worker sees events in the order the bus
    /// delivered them; a lag is passed over; the worker's exit ends the loop.
    pub fn step(&mut self, input: SupervisorInput) -> (r: SupervisorAction)
        requires
            old(self).wf(),
        ensures
            final(self).wf(),
            supervisor_step(*old(self), input, *final(self), r),
    {
        match input {
            SupervisorInput::Event(e) => {
                let sig = e.as_sig();
                match self.policy {
                    ForwardPolicy::Relay => SupervisorAction::Write(sig_to_line_bs(sig)),
                    ForwardPolicy::Redeliver(TargetGroup::Own) => SupervisorAction::SignalGroup {
                        pgid: 0,
                        sig,
                    },
                    ForwardPolicy::Redeliver(TargetGroup::Worker) => SupervisorAction::SignalGroup {
                        pgid: self.worker_pgid,
                        sig,
                    },
                }
            },
            SupervisorInput::Lagged(_) => SupervisorAction::Nothing,
            SupervisorInput::BusClosed => {
                self.bus_open = false;
                SupervisorAction::Nothing
            },
            SupervisorInput::WorkerExited => SupervisorAction::CancelAndExit,
            SupervisorInput::ForwardFailed => SupervisorAction::AbortAndReap,
        }
    }
}

/// The records of `events`, one after the other.
pub open spec fn stream_of(events: Seq<SignalEvent>) -> Seq<u8>
    decreases events.len(),
{
    if events.len() == 0 {
        Seq::empty()
    } else {
        stream_of(events.drop_last()) + line_of(sig_of(events.last()))
    }
}

/// The bytes that `actions` write, one write after the other.
pub open spec fn written(actions: Seq<SupervisorAction>) -> Seq<u8>
    decreases actions.len(),
{
    if actions.len() == 0 {
        Seq::empty()
    } else {
        written(actions.drop_last()) + match actions.last() {
            SupervisorAction::Write(bs) => bs@,
            _ => Seq::empty(),
        }
    }
}

proof fn lemma_written_prefix(events: Seq<SignalEvent>, actions: Seq<SupervisorAction>, n: int)
    requires
        actions.len() == events.len(),
        forall|i: int|
            0 <= i < events.len() ==> #[trigger] actions[i] is Write && actions[i]->Write_0@
                == line_of(sig_of(events[i])),
        0 <= n <= events.len(),
    ensures
        written(actions.subrange(0, n)) == stream_of(events.subrange(0, n)),
    decreases n,
{
    if n > 0 {
        lemma_written_prefix(events, actions, n - 1);
        assert(actions.subrange(0, n).drop_last() =~= actions.subrange(0, n - 1));
        assert(events.subrange(0, n).drop_last() =~= events.subrange(0, n - 1));
        assert(actions[n - 1] is Write);
    }
}

/// Events that reach the supervisor in some order are forwarded in that
/// same order, without reordering, coalescing or duplication: the i-th
/// record written carries the i-th event delivered, and the bytes written
/// are the events' records one after the other.
pub proof fn lemma_forward_order(
    states: Seq<Supervisor>,
    events: Seq<SignalEvent>,
    actions: Seq<SupervisorAction>,
)
    requires
        states.len() == events.len() + 1,
        actions.len() == events.len(),
        states[0].policy == ForwardPolicy::Relay,
        forall|i: int|
            0 <= i < events.len() ==> supervisor_step(
                states[i],
                SupervisorInput::Event(#[trigger] events[i]),
                states[i + 1],
                actions[i],
            ),
    ensures
        forall|i: int|
            0 <= i < events.len() ==> #[trigger] actions[i] is Write && actions[i]->Write_0@
                == line_of(sig_of(events[i])),
        written(actions) == stream_of(events),
{
    assert forall|i: int| 0 <= i <= events.len() implies #[trigger] states[i].policy
        == ForwardPolicy::Relay by {
        lemma_policy_kept(states, events, actions, i);
    }
    assert forall|i: int| 0 <= i < events.len() implies #[trigger] actions[i] is Write
        && actions[i]->Write_0@ == line_of(sig_of(events[i])) by {
        assert(states[i].policy == ForwardPolicy::Relay);
        assert(supervisor_step(states[i], SupervisorInput::Event(events[i]), states[i + 1], actions[i]));
    }
    lemma_written_prefix(events, actions, events.len() as int);
    assert(actions.subrange(0, actions.len() as int) =~= actions);
    assert(events.subrange(0, events.len() as int) =~= events);
}

proof fn lemma_policy_kept(
    states: Seq<Supervisor>,
    events: Seq<SignalEvent>,
    actions: Seq<SupervisorAction>,
    i: int,
)
    requires
        states.len() == events.len() + 1,
        actions.len() == events.len(),
        forall|j: int|
            0 <= j < events.len() ==> supervisor_step(
                states[j],
                SupervisorInput::Event(#[trigger] events[j]),
                states[j + 1],
                actions[j],
            ),
        0 <= i <= events.len(),
    ensures
        states[i].policy == states[0].policy,
    decreases i,
{
    if i > 0 {
        lemma_policy_kept(states, events, actions, i - 1);
        assert(supervisor_step(states[i - 1], SupervisorInput::Event(events[i - 1]), states[i], actions[i - 1]));
    }
}

} // verus!
