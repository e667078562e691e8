use vstd::prelude::*;

verus! {

/// The lifecycle state of the store: no schema yet, a schema recorded by
/// the running version, or a schema recorded by another version.
#[derive(Clone, Copy, Debug, PartialEq, Eq, Structural)]
pub enum DbState {
    Uninitialized,
    Valid,
    Invalid,
}

/// What must be done to the store when the program starts.
#[derive(Clone, Copy, Debug, PartialEq, Eq, Structural)]
pub enum StartupAction {
    /// Create every table and record the running version.
    CreateSchema,
    Nothing,
}

/// The state of a store from what it holds: whether any table exists, and
/// the version that its metadata records.
pub open spec fn state_of(schema_exists: bool, stored: Seq<char>, running: Seq<char>) -> DbState {
    if !schema_exists {
        DbState::Uninitialized
    } else if stored == running {
        DbState::Valid
    } else {
        DbState::Invalid
    }
}

/// Resolves the state of the store. The stored version is read only where a
/// schema exists.
pub fn resolve_state(schema_exists: bool, stored_version: &String, running: &String) -> (r: DbState)
    ensures
        r == state_of(schema_exists, stored_version@, running@),
{
    if !schema_exists {
        DbState::Uninitialized
    } else if *stored_version == *running {
        DbState::Valid
    } else {
        DbState::Invalid
    }
}

/// Whether the recorded version is that of the running program.
pub fn correct_version(stored_version: &String, running: &String) -> (r: bool)
    ensures
        r == (stored_version@ == running@),
{
    *stored_version == *running
}

impl DbState {
    /// The startup transition: a store without schema gets one and becomes
    /// valid; any other state stays as it is and nothing is done.
    pub fn at_startup(self) -> (r: (DbState, StartupAction))
        ensures
            self == DbState::Uninitialized ==> r == (DbState::Valid, StartupAction::CreateSchema),
            self != DbState::Uninitialized ==> r == (self, StartupAction::Nothing),
    {
        match self {
            DbState::Uninitialized => (DbState::Valid, StartupAction::CreateSchema),
            _ => (self, StartupAction::Nothing),
        }
    }

    /// Recreating drops every table, creates the schema afresh with the
    /// running version, and so leaves the store valid whatever it was.
    pub fn after_recreate(self) -> (r: DbState)
        ensures
            r == DbState::Valid,
    {
        DbState::Valid
    }

    pub fn set_db_invalid(&mut self)
        ensures
            *final(self) == DbState::Invalid,
    {
        *self = DbState::Invalid;
    }

    pub fn set_db_valid(&mut self)
        ensures
            *final(self) == DbState::Valid,
    {
        *self = DbState::Valid;
    }

    pub fn get_db_validitiy(&self) -> (r: bool)
        ensures
            r == (*self == DbState::Valid),
    {
        match self {
            DbState::Valid => true,
            _ => false,
        }
    }
}

} // verus!
