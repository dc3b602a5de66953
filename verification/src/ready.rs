//! The ready state: where the machine works.

use std::time::Instant;
use vstd::prelude::*;

verus! {

/// The machine at work. Its fields are private to this module, so the only
/// way in is [`ReadyState::enter`] and the only way out is
/// [`ReadyState::exit`].
#[derive(Debug)]
pub struct ReadyState {
    ready_count: u64,
    ready_start: Instant,
}

/// What it takes to enter the ready state.
#[derive(Debug)]
pub struct ReadyStateInputs {
    pub ready_count: u64,
}

/// What the ready state hands over when it is left.
#[derive(Debug)]
pub struct ReadyStateOutputs {
    pub ready_count: u64,
}

impl ReadyState {
    /// Every ready state has been counted: it was entered, and entering adds
    /// one.
    #[verifier::type_invariant]
    spec fn counted(self) -> bool {
        self.ready_count >= 1
    }

    /// How many times the machine has become ready, this entry included.
    pub closed spec fn count(self) -> nat {
        self.ready_count as nat
    }

    /// The clock reading taken when this state was entered.
    pub closed spec fn entered_at(self) -> Instant {
        self.ready_start
    }

    /// Enters the ready state. This is the one place where the count grows:
    /// whichever state the machine comes from, becoming ready adds one. The
    /// entry time is read from the clock.
    pub fn enter(inputs: ReadyStateInputs) -> (state: Self)
        requires
            inputs.ready_count < u64::MAX,
        ensures
            state.count() == inputs.ready_count + 1,
    {
        let ReadyStateInputs { ready_count } = inputs;
        Self { ready_count: ready_count + 1, ready_start: Instant::now() }
    }

    /// Leaves the ready state, giving up the count it held, which is at
    /// least one. The state is consumed, so it can be left only once.
    pub fn exit(self) -> (outputs: ReadyStateOutputs)
        ensures
            outputs.ready_count == self.count(),
            outputs.ready_count >= 1,
    {
        proof {
            use_type_invariant(&self);
        }
        let Self { ready_count, ready_start: _ } = self;
        ReadyStateOutputs { ready_count }
    }

    /// Reads the count without consuming the state. In the ready state the
    /// count is at least one.
    pub fn ready_count(&self) -> (count: u64)
        ensures
            count == self.count(),
            count >= 1,
    {
        proof {
            use_type_invariant(self);
        }
        self.ready_count
    }
}

} // verus!
