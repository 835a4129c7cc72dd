//! The worker's side: a state machine that listens for wire records until it
//! decodes the terminal signal, or until its deadline passes.
use crate::wire::{decode_spec, read_sig, MalformedMessage};
use vstd::prelude::*;

verus! {

/// How long a worker listens before it gives up, in seconds.
pub const WORKER_TIMEOUT_SECS: u64 = 10;

/// Where the worker stands.
#[derive(Copy, Clone, Debug, PartialEq, Eq, Structural)]
pub enum WorkerState {
    /// Waiting for records.
    Listening,
    /// The terminal signal arrived.
    Matched,
    /// The deadline passed first.
    TimedOut,
    /// A record could not be decoded; the protocol cannot resynchronise.
    Failed(MalformedMessage),
}

/// What the worker is told.
#[derive(Clone, Debug)]
pub enum WorkerInput {
    /// One line read from the input stream, delimiter included.
    Line(Vec<u8>),
    /// A read that returned nothing; it is tried again.
    EndOfStream,
    /// The deadline passed.
    Deadline,
}

/// The state after one input. Only a listening worker moves.
pub open spec fn next_state(s: WorkerState, input: WorkerInput, terminal: i32) -> WorkerState {
    match s {
        WorkerState::Listening => match input {
            WorkerInput::Line(l) => match decode_spec(l@) {
                Ok(sig) => if sig == terminal {
                    WorkerState::Matched
                } else {
                    WorkerState::Listening
                },
                Err(m) => WorkerState::Failed(m),
            },
            WorkerInput::EndOfStream => WorkerState::Listening,
            WorkerInput::Deadline => WorkerState::TimedOut,
        },
        _ => s,
    }
}

/// The state after a sequence of inputs.
pub open spec fn run(s: WorkerState, inputs: Seq<WorkerInput>, terminal: i32) -> WorkerState
    decreases inputs.len(),
{
    if inputs.len() == 0 {
        s
    } else {
        run(next_state(s, inputs[0], terminal), inputs.drop_first(), terminal)
    }
}

/// The worker's loop state and the signal that ends it.
#[derive(Copy, Clone, Debug, PartialEq, Eq, Structural)]
pub struct WorkerLoop {
    pub state: WorkerState,
    pub terminal: i32,
}

impl WorkerLoop {
    /// A listening worker that stops on `terminal`.
    pub fn new(terminal: i32) -> (r: WorkerLoop)
        ensures
            r.state == WorkerState::Listening,
            r.terminal == terminal,
    {
        WorkerLoop { state: WorkerState::Listening, terminal }
    }

    /// Takes in one input.
    pub fn step(&mut self, input: &WorkerInput) -> (r: WorkerState)
        ensures
            final(self).terminal == old(self).terminal,
            final(self).state == next_state(old(self).state, *input, old(self).terminal),
            r == final(self).state,
    {
        if self.state != WorkerState::Listening {
            return self.state;
        }
        match input {
            WorkerInput::Line(l) => {
                match read_sig(l.as_slice()) {
                    Ok(sig) => {
                        if sig == self.terminal {
                            self.state = WorkerState::Matched;
                        }
                    },
                    Err(m) => {
                        self.state = WorkerState::Failed(m);
                    },
                }
            },
            WorkerInput::EndOfStream => {},
            WorkerInput::Deadline => {
                self.state = WorkerState::TimedOut;
            },
        }
        self.state
    }

    /// Whether the loop is over.
    pub fn is_finished(&self) -> (r: bool)
        ensures
            r == (self.state != WorkerState::Listening),
    {
        self.state != WorkerState::Listening
    }
}

/// A worker that receives no record at all, however many empty reads it
/// sees, has timed out once its deadline passes.
pub proof fn lemma_timeout_fallback(inputs: Seq<WorkerInput>, terminal: i32)
    requires
        forall|i: int| 0 <= i < inputs.len() ==> #[trigger] inputs[i] is EndOfStream,
    ensures
        run(WorkerState::Listening, inputs.push(WorkerInput::Deadline), terminal)
            == WorkerState::TimedOut,
    decreases inputs.len(),
{
    if inputs.len() == 0 {
        let one = inputs.push(WorkerInput::Deadline);
        assert(one[0] == WorkerInput::Deadline);
        assert(one.drop_first().len() == 0);
        assert(run(WorkerState::TimedOut, one.drop_first(), terminal) == WorkerState::TimedOut);
    } else {
        let rest = inputs.drop_first();
        assert(inputs.push(WorkerInput::Deadline).drop_first() =~= rest.push(WorkerInput::Deadline));
        assert(inputs[0] is EndOfStream);
        assert(inputs.push(WorkerInput::Deadline)[0] == inputs[0]);
        assert forall|i: int| 0 <= i < rest.len() implies #[trigger] rest[i] is EndOfStream by {
            assert(rest[i] == inputs[i + 1]);
        }
        lemma_timeout_fallback(rest, terminal);
    }
}

} // verus!
