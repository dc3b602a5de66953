//! The machine as contracts see it: which state it is in, and its count.
//!
//! Entry times are left out of this model. A fresh one is read from the clock
//! at every entry, so no function of the machine's past determines it.

use vstd::prelude::*;

verus! {

/// Which of its two states the machine is in.
pub enum Phase {
    Stored,
    Ready,
}

/// The machine in some state, with the number of times it has become ready.
pub struct Machine {
    pub phase: Phase,
    pub count: nat,
}

impl Phase {
    /// The stable label of a state.
    pub open spec fn label(self) -> Seq<char> {
        match self {
            Phase::Stored => "stored"@,
            Phase::Ready => "ready"@,
        }
    }
}

impl Machine {
    /// The machine as it is created: at rest, never yet ready.
    pub open spec fn initial() -> Machine {
        Machine { phase: Phase::Stored, count: 0 }
    }

    /// Making the machine ready. From rest this succeeds and adds one to the
    /// count; a machine that is ready already comes back unchanged as the
    /// error.
    pub open spec fn ready(self) -> Result<Machine, Machine> {
        match self.phase {
            Phase::Stored => Ok(Machine { phase: Phase::Ready, count: self.count + 1 }),
            Phase::Ready => Err(self),
        }
    }

    /// Putting the machine to rest. From the ready state this succeeds and
    /// keeps the count; a machine that rests already comes back unchanged as
    /// the error.
    pub open spec fn store(self) -> Result<Machine, Machine> {
        match self.phase {
            Phase::Ready => Ok(Machine { phase: Phase::Stored, count: self.count }),
            Phase::Stored => Err(self),
        }
    }
}

} // verus!
