//! The stored state: where the machine rests.

use std::time::Instant;
use vstd::prelude::*;

verus! {

/// The machine at rest. Its fields are private to this module, so the only
/// way in is [`StoredState::enter`] and the only way out is
/// [`StoredState::exit`].
#[derive(Debug)]
pub struct StoredState {
    ready_count: u64,
    stored_start: Instant,
}

/// What it takes to enter the stored state.
#[derive(Debug)]
pub struct StoredStateInputs {
    pub ready_count: u64,
}

/// What the stored state hands over when it is left.
#[derive(Debug)]
pub struct StoredStateOutputs {
    pub ready_count: u64,
}

impl StoredState {
    /// How many times the machine has become ready, as this state holds it.
    pub closed spec fn count(self) -> nat {
        self.ready_count as nat
    }

    /// The clock reading taken when this state was entered.
    pub closed spec fn entered_at(self) -> Instant {
        self.stored_start
    }

    /// Enters the stored state. The count is carried over as it is, and the
    /// entry time is read from the clock.
    pub fn enter(inputs: StoredStateInputs) -> (state: Self)
        ensures
            state.count() == inputs.ready_count,
    {
        let StoredStateInputs { ready_count } = inputs;
        Self { ready_count, stored_start: Instant::now() }
    }

    /// Leaves the stored state, giving up the count it held. The state is
    /// consumed, so it can be left only once.
    pub fn exit(self) -> (outputs: StoredStateOutputs)
        ensures
            outputs.ready_count == self.count(),
    {
        let Self { ready_count, stored_start: _ } = self;
        StoredStateOutputs { ready_count }
    }

    /// Reads the count without consuming the state.
    pub fn ready_count(&self) -> (count: u64)
        ensures
            count == self.count(),
    {
        self.ready_count
    }
}

} // verus!
