//! Commands: the two requests a caller can make of the machine, how a line
//! of text names one, and how the outcome of one is reported.

use crate::machine::Machine;
use crate::state::State;
use vstd::prelude::*;
use vstd::string::StrSliceExecFns;
use vstd::string::StringExecFns;

verus! {

/// A request to the machine.
#[derive(Debug, Clone, Copy, PartialEq, Eq, Structural)]
pub enum Command {
    /// Make the machine ready.
    Ready,
    /// Put the machine to rest.
    Store,
}

impl Command {
    /// The command that a line of text names: `ready` and `store` name the
    /// two commands, and nothing else names any.
    pub open spec fn named_by(line: Seq<char>) -> Option<Command> {
        if line == "ready"@ {
            Some(Command::Ready)
        } else if line == "store"@ {
            Some(Command::Store)
        } else {
            None
        }
    }

    /// Reads a command from a line of text. The line must be the command's
    /// word exactly: no other spelling, case or padding is accepted.
    pub fn parse(line: &str) -> (command: Option<Command>)
        ensures
            command == Command::named_by(line@),
    {
        if same_text(line, "ready") {
            Some(Command::Ready)
        } else if same_text(line, "store") {
            Some(Command::Store)
        } else {
            None
        }
    }
}

/// Whether two strings hold the same characters.
fn same_text(left: &str, right: &str) -> (same: bool)
    ensures
        same == (left@ == right@),
{
    let n: usize = left.unicode_len();
    if n != right.unicode_len() {
        return false;
    }
    let mut i: usize = 0;
    while i < n
        invariant
            n == left@.len(),
            n == right@.len(),
            i <= n,
            forall|j: int| 0 <= j < i ==> left@[j] == right@[j],
        decreases n - i,
    {
        if left.get_char(i) != right.get_char(i) {
            return false;
        }
        i += 1;
    }
    proof {
        assert(left@ =~= right@);
    }
    true
}

impl Machine {
    /// What a command does to the machine.
    pub open spec fn apply(self, command: Command) -> Result<Machine, Machine> {
        match command {
            Command::Ready => self.ready(),
            Command::Store => self.store(),
        }
    }
}

impl State {
    /// Carries out a command: one call of the transition it stands for. An
    /// illegal command hands the machine back as the error, untouched.
    pub fn apply(self, command: Command) -> (result: Result<State, State>)
        requires
            command is Ready && self is Stored ==> self@.count < u64::MAX,
        ensures
            State::outcome(result) == self@.apply(command),
            result matches Err(same) ==> same == self && same.entered_at() == self.entered_at(),
    {
        match command {
            Command::Ready => self.ready(),
            Command::Store => self.store(),
        }
    }
}

/// The text that reports the outcome of a command. A success names the state
/// that the machine moved to, a failure the state that it is still in.
pub open spec fn response_text(outcome: Result<Machine, Machine>) -> Seq<char> {
    match outcome {
        Ok(next) => "Transitioned to "@ + next.phase.label() + "!"@,
        Err(same) => "Transition failed! Current state is "@ + same.phase.label() + "."@,
    }
}

/// Writes the report of a command's outcome.
pub fn response(result: &Result<State, State>) -> (text: String)
    ensures
        text@ == response_text(State::outcome(*result)),
{
    match result {
        Ok(next) => {
            let mut text = String::from_str("Transitioned to ");
            text.append(next.name());
            text.append("!");
            text
        },
        Err(same) => {
            let mut text = String::from_str("Transition failed! Current state is ");
            text.append(same.name());
            text.append(".");
            text
        },
    }
}

} // verus!
