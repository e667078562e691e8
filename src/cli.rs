use crate::commands::{CalculateArgs, DatabaseArgs, DevicesArgs, InfoArgs, SummaryArgs};
use crate::commands::database::Actions as DatabaseActions;
use crate::db::{DbState, state_of};
use vstd::prelude::*;

verus! {

/// The command line: one command to run.
#[derive(Debug)]
pub struct Cli {
    pub commands: Commands,
}

#[derive(Debug)]
pub enum Commands {
    Info(InfoArgs),
    Database(DatabaseArgs),
    Summary(SummaryArgs),
    Devices(DevicesArgs),
    Calculate(CalculateArgs),
}

/// Which commands may run in a state of the store. A valid store permits
/// every command; an invalid one only the report on files and store and the
/// recreation of the store; a store without schema none until it has one.
pub open spec fn permits(state: DbState, c: Commands) -> bool {
    match state {
        DbState::Valid => true,
        DbState::Invalid => match c {
            Commands::Info(_) => true,
            Commands::Database(d) => d.actions == DatabaseActions::Recreate,
            _ => false,
        },
        DbState::Uninitialized => false,
    }
}

impl Commands {
    /// Whether this command may run in the given state of the store.
    pub fn permitted(&self, state: DbState) -> (r: bool)
        ensures
            r == permits(state, *self),
    {
        match state {
            DbState::Valid => true,
            DbState::Invalid => match self {
                Commands::Info(_) => true,
                Commands::Database(d) => match d.actions {
                    DatabaseActions::Recreate => true,
                    DatabaseActions::Import => false,
                },
                _ => false,
            },
            DbState::Uninitialized => false,
        }
    }
}

impl Cli {
    pub fn permitted(&self, state: DbState) -> (r: bool)
        ensures
            r == permits(state, self.commands),
    {
        self.commands.permitted(state)
    }
}

/// A store whose recorded version is not the running one resolves to the
/// invalid state, which refuses an import and permits both the report on
/// files and store and the recreation of the store.
pub proof fn version_mismatch_gates_import(stored: Seq<char>, running: Seq<char>, info: InfoArgs)
    requires
        stored != running,
    ensures
        state_of(true, stored, running) == DbState::Invalid,
        !permits(DbState::Invalid, Commands::Database((DatabaseArgs { actions: DatabaseActions::Import }))),
        permits(DbState::Invalid, Commands::Database((DatabaseArgs { actions: DatabaseActions::Recreate }))),
        permits(DbState::Invalid, Commands::Info(info)),
{
}

} // verus!
