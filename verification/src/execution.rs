//! Commands on their way to the engine.

use crate::dispenses::commands::{Command, CommandModel};
use crate::ids::is_id;
use crate::metadata::{Metadata, COMMAND_ID};
use vstd::prelude::*;

verus! {

/// A command for the engine to execute: the aggregate it is for, the command
/// itself, and the metadata that is to travel with its events.
#[derive(Debug)]
pub struct Execution {
    pub aggregate_id: String,
    pub command: Command,
    pub metadata: Metadata,
}

/// Mathematical model of an [`Execution`].
pub struct ExecutionModel {
    pub aggregate_id: Seq<char>,
    pub command: CommandModel,
    pub metadata: Map<Seq<char>, Seq<char>>,
}

impl View for Execution {
    type V = ExecutionModel;

    open spec fn view(&self) -> ExecutionModel {
        ExecutionModel {
            aggregate_id: self.aggregate_id@,
            command: self.command@,
            metadata: self.metadata@,
        }
    }
}

impl ExecutionModel {
    /// A command for an aggregate, traced by the id of the command and by
    /// nothing else.
    pub open spec fn of(
        aggregate_id: Seq<char>,
        command: CommandModel,
        command_id: Seq<char>,
    ) -> ExecutionModel {
        ExecutionModel {
            aggregate_id,
            command,
            metadata: Map::<Seq<char>, Seq<char>>::empty().insert(COMMAND_ID@, command_id),
        }
    }

    /// The id under which the command is traced.
    pub open spec fn command_id(self) -> Seq<char> {
        self.metadata[COMMAND_ID@]
    }

    /// The command for an aggregate, traced by some fresh id.
    pub open spec fn is_fresh(self, aggregate_id: Seq<char>, command: CommandModel) -> bool {
        &&& self == ExecutionModel::of(aggregate_id, command, self.command_id())
        &&& is_id(self.command_id())
    }
}

impl Execution {
    /// Addresses a command to an aggregate and gives it the id under which
    /// it is traced. The id is for tracing only: nothing rejects a command
    /// for an id that was seen before.
    pub fn new(aggregate_id: String, command: Command, command_id: String) -> (execution: Execution)
        ensures
            execution@ == ExecutionModel::of(aggregate_id@, command@, command_id@),
    {
        Execution { aggregate_id, command, metadata: Metadata::for_command(command_id) }
    }
}

/// How often at most a command is handed to the engine before the caller is
/// told that it did not go through.
pub const MAX_ATTEMPTS: u32 = 3;

/// What to do after an attempt to execute a command.
#[derive(Clone, Copy, Debug, PartialEq, Eq, Structural)]
pub enum Next {
    /// The attempt has settled the matter: hand its result on, be it
    /// success or the refusal of the command.
    Done,
    /// Another writer was faster: load, handle and commit once more.
    Retry,
    /// Another writer was faster every time: hand the conflict on as a
    /// failure that may pass.
    GiveUp,
}

/// What follows an attempt, the `attempts`-th since the command came in,
/// that ended in a conflict with another writer or did not.
///
/// Only a conflict is tried again, and only while fewer than
/// [`MAX_ATTEMPTS`] attempts were made.
pub open spec fn next_after(attempts: u32, conflict: bool) -> Next {
    if !conflict {
        Next::Done
    } else if attempts < MAX_ATTEMPTS {
        Next::Retry
    } else {
        Next::GiveUp
    }
}

/// Decides what follows an attempt to execute a command: `attempts` counts
/// the attempts made so far, this one included, and `conflict` says whether
/// this one lost the race for the aggregate's next sequence number.
pub fn after_attempt(attempts: u32, conflict: bool) -> (next: Next)
    ensures
        next == next_after(attempts, conflict),
{
    if !conflict {
        Next::Done
    } else if attempts < MAX_ATTEMPTS {
        Next::Retry
    } else {
        Next::GiveUp
    }
}

/// The attempts are bounded: a caller that counts its attempts from one and
/// tries again only when told to makes at most [`MAX_ATTEMPTS`] of them.
pub proof fn lemma_attempts_are_bounded(attempts: u32, conflict: bool)
    ensures
        next_after(attempts, conflict) == Next::Retry ==> attempts < MAX_ATTEMPTS,
        attempts >= MAX_ATTEMPTS ==> next_after(attempts, conflict) != Next::Retry,
        !conflict ==> next_after(attempts, conflict) == Next::Done,
{
}

impl Clone for Execution {
    fn clone(&self) -> (copy: Execution)
        ensures
            copy@ == self@,
    {
        Execution {
            aggregate_id: self.aggregate_id.clone(),
            command: self.command.clone(),
            metadata: self.metadata.clone(),
        }
    }
}

} // verus!
