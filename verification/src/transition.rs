//! The legal transitions, one per state, and what each may produce.
//!
//! This module cannot see inside a state. A transition therefore has to leave
//! the old state through `exit` and make the new one through `enter`.

use crate::ready::{ReadyState, ReadyStateInputs, ReadyStateOutputs};
use crate::stored::{StoredState, StoredStateInputs, StoredStateOutputs};
use vstd::prelude::*;

verus! {

/// The states that leaving the stored state can lead to.
#[derive(Debug)]
pub enum StoredStateTransitionResult {
    Ready(ReadyState),
}

/// The states that leaving the ready state can lead to.
#[derive(Debug)]
pub enum ReadyStateTransitionResult {
    Stored(StoredState),
}

impl StoredState {
    /// Makes the machine ready. Entering the ready state adds one to the
    /// count, so the count must have room to grow.
    pub fn ready(self) -> (result: StoredStateTransitionResult)
        requires
            self.count() < u64::MAX,
        ensures
            result matches StoredStateTransitionResult::Ready(next)
                && next.count() == self.count() + 1,
    {
        let StoredStateOutputs { ready_count } = self.exit();
        StoredStateTransitionResult::Ready(ReadyState::enter(ReadyStateInputs { ready_count }))
    }
}

impl ReadyState {
    /// Puts the machine back to rest. The count is kept as it is.
    pub fn store(self) -> (result: ReadyStateTransitionResult)
        ensures
            result matches ReadyStateTransitionResult::Stored(next)
                && next.count() == self.count(),
    {
        let ReadyStateOutputs { ready_count } = self.exit();
        ReadyStateTransitionResult::Stored(StoredState::enter(StoredStateInputs { ready_count }))
    }
}

} // verus!
