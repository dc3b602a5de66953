//! The handle: the machine in whichever state it is in right now.

use crate::machine::{Machine, Phase};
use crate::ready::ReadyState;
use crate::stored::{StoredState, StoredStateInputs};
use crate::transition::{ReadyStateTransitionResult, StoredStateTransitionResult};
use std::time::Instant;
use vstd::prelude::*;
use vstd::std_specs::convert::FromSpecImpl;

verus! {

/// The machine, owning exactly one of its states. A transition consumes the
/// handle and gives back a handle: the successor where the transition is
/// legal, the very same state where it is not.
#[derive(Debug)]
pub enum State {
    Stored(StoredState),
    Ready(ReadyState),
}

impl View for State {
    type V = Machine;

    open spec fn view(&self) -> Machine {
        match *self {
            State::Stored(state) => Machine { phase: Phase::Stored, count: state.count() },
            State::Ready(state) => Machine { phase: Phase::Ready, count: state.count() },
        }
    }
}

impl State {
    /// The clock reading taken when the current state was entered.
    pub open spec fn entered_at(self) -> Instant {
        match self {
            State::Stored(state) => state.entered_at(),
            State::Ready(state) => state.entered_at(),
        }
    }

    /// What the result of a transition looks like in the model: the view of
    /// the handle on either side.
    pub open spec fn outcome(result: Result<State, State>) -> Result<Machine, Machine> {
        match result {
            Ok(next) => Ok(next@),
            Err(same) => Err(same@),
        }
    }

    /// The label of the current state: `"stored"` at rest, `"ready"` at work.
    pub fn name(&self) -> (label: &'static str)
        ensures
            label@ == self@.phase.label(),
            self is Stored <==> label@ == "stored"@,
            self is Ready <==> label@ == "ready"@,
    {
        proof {
            reveal_strlit("stored");
            reveal_strlit("ready");
            assert("stored"@.len() == 6 && "ready"@.len() == 5);
        }
        match self {
            State::Stored(_) => "stored",
            State::Ready(_) => "ready",
        }
    }

    /// Makes the machine ready. At rest this is legal: the handle comes back
    /// in the ready state with the count one higher. A machine that is ready
    /// already is handed back as the error, untouched: same state, same
    /// count, same entry time.
    pub fn ready(self) -> (result: Result<State, State>)
        requires
            self is Stored ==> self@.count < u64::MAX,
        ensures
            State::outcome(result) == self@.ready(),
            result matches Err(same) ==> same == self && same.entered_at() == self.entered_at(),
    {
        match self {
            State::Stored(state) => Ok(State::from(state.ready())),
            _ => Err(self),
        }
    }

    /// Puts the machine to rest. From the ready state this is legal: the
    /// handle comes back at rest with the count as it was. A machine that
    /// rests already is handed back as the error, untouched: same state, same
    /// count, same entry time.
    pub fn store(self) -> (result: Result<State, State>)
        ensures
            State::outcome(result) == self@.store(),
            result matches Err(same) ==> same == self && same.entered_at() == self.entered_at(),
    {
        match self {
            State::Ready(state) => Ok(State::from(state.store())),
            _ => Err(self),
        }
    }
}

impl Default for State {
    /// The machine as it is created: at rest, with a count of zero.
    fn default() -> (state: State)
        ensures
            state@ == Machine::initial(),
    {
        State::Stored(StoredState::enter(StoredStateInputs { ready_count: 0 }))
    }
}

impl FromSpecImpl<StoredStateTransitionResult> for State {
    open spec fn obeys_from_spec() -> bool {
        true
    }

    open spec fn from_spec(value: StoredStateTransitionResult) -> State {
        match value {
            StoredStateTransitionResult::Ready(state) => State::Ready(state),
        }
    }
}

impl From<StoredStateTransitionResult> for State {
    /// Wraps what leaving the stored state produced, state for state.
    fn from(value: StoredStateTransitionResult) -> (state: State) {
        match value {
            StoredStateTransitionResult::Ready(state) => State::Ready(state),
        }
    }
}

impl FromSpecImpl<ReadyStateTransitionResult> for State {
    open spec fn obeys_from_spec() -> bool {
        true
    }

    open spec fn from_spec(value: ReadyStateTransitionResult) -> State {
        match value {
            ReadyStateTransitionResult::Stored(state) => State::Stored(state),
        }
    }
}

impl From<ReadyStateTransitionResult> for State {
    /// Wraps what leaving the ready state produced, state for state.
    fn from(value: ReadyStateTransitionResult) -> (state: State) {
        match value {
            ReadyStateTransitionResult::Stored(state) => State::Stored(state),
        }
    }
}

} // verus!
