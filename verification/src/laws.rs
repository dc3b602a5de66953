//! What holds of the machine whatever is asked of it, and in whatever order.

use crate::command::Command;
use crate::machine::{Machine, Phase};
use vstd::prelude::*;

verus! {

impl Machine {
    /// The machine that a command leaves behind: the successor where the
    /// command is legal, the machine itself where it is not.
    pub open spec fn after(self, command: Command) -> Machine {
        match self.apply(command) {
            Ok(next) => next,
            Err(same) => same,
        }
    }

    /// The machine that a sequence of commands leaves behind, each command
    /// carried out on what the one before it left.
    pub open spec fn run(self, commands: Seq<Command>) -> Machine
        decreases commands.len(),
    {
        if commands.len() == 0 {
            self
        } else {
            self.run(commands.drop_last()).after(commands.last())
        }
    }
}

/// The first steps of a new machine: it cannot be put to rest, because it
/// rests already, and it can be made ready, which brings its count to one.
pub proof fn lemma_initial_steps()
    ensures
        Machine::initial().store() == Err::<Machine, Machine>(Machine::initial()),
        Machine::initial().ready() == Ok::<Machine, Machine>(
            Machine { phase: Phase::Ready, count: 1 },
        ),
{
}

/// In every state exactly one of the two commands is legal.
pub proof fn lemma_one_legal_command(machine: Machine)
    ensures
        machine.ready() is Ok <==> machine.store() is Err,
        machine.ready() is Ok <==> machine.phase is Stored,
        machine.store() is Ok <==> machine.phase is Ready,
{
}

/// A rejected command changes nothing: the machine that comes back as the
/// error is the machine that was asked, state and count.
pub proof fn lemma_rejection_changes_nothing(machine: Machine, command: Command)
    requires
        machine.apply(command) is Err,
    ensures
        machine.apply(command) == Err::<Machine, Machine>(machine),
        machine.after(command) == machine,
{
}

/// Rejection is idempotent: a command that is illegal now stays illegal
/// however often it is repeated, and the machine after any number of
/// attempts is the machine before the first.
pub proof fn lemma_rejection_repeats(machine: Machine, command: Command, attempts: nat)
    requires
        machine.apply(command) is Err,
    ensures
        machine.run(Seq::new(attempts, |i: int| command)) == machine,
        machine.run(Seq::new(attempts, |i: int| command)).apply(command) is Err,
    decreases attempts,
{
    if attempts > 0 {
        let fewer = (attempts - 1) as nat;
        lemma_rejection_repeats(machine, command, fewer);
        assert(Seq::new(attempts, |i: int| command).drop_last() =~= Seq::new(
            fewer,
            |i: int| command,
        ));
    }
}

/// The count moves only on the way into the ready state, and then by exactly
/// one; on the way to rest it is kept.
pub proof fn lemma_count_steps(machine: Machine, command: Command)
    ensures
        machine.apply(command) matches Ok(next) ==> {
            &&& next.phase != machine.phase
            &&& next.phase is Ready ==> next.count == machine.count + 1
            &&& next.phase is Stored ==> next.count == machine.count
        },
{
}

/// A round trip from rest: ready, back to rest, ready again. Each step is
/// legal, and the count rises by one at each entry into the ready state and
/// at no other step.
pub proof fn lemma_round_trip(machine: Machine)
    requires
        machine.phase is Stored,
    ensures
        ({
            let first = Machine { phase: Phase::Ready, count: machine.count + 1 };
            let rest = Machine { phase: Phase::Stored, count: machine.count + 1 };
            let second = Machine { phase: Phase::Ready, count: machine.count + 2 };
            &&& machine.ready() == Ok::<Machine, Machine>(first)
            &&& first.store() == Ok::<Machine, Machine>(rest)
            &&& rest.ready() == Ok::<Machine, Machine>(second)
        }),
{
}

/// Over any sequence of commands the count never falls, and it rises by at
/// most one for each command.
pub proof fn lemma_count_never_falls(machine: Machine, commands: Seq<Command>)
    ensures
        machine.count <= machine.run(commands).count <= machine.count + commands.len(),
    decreases commands.len(),
{
    if commands.len() > 0 {
        lemma_count_never_falls(machine, commands.drop_last());
    }
}

/// A machine that starts at rest with a count of zero is ready only after it
/// has been counted: whatever it was asked, in the ready state its count is
/// at least one.
pub proof fn lemma_ready_is_counted(commands: Seq<Command>)
    ensures
        Machine::initial().run(commands).phase is Ready ==> Machine::initial().run(
            commands,
        ).count >= 1,
    decreases commands.len(),
{
    if commands.len() > 0 {
        lemma_ready_is_counted(commands.drop_last());
    }
}

} // verus!
