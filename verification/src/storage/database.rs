//! The database handle: an explicitly owned record of where the database
//! lives, which every statement is checked against before it may run.
//!
//! No storage engine is attached to the handle. A write is accepted and a
//! read finds no rows.

use vstd::prelude::*;
use vstd::string::StringExecFns;

verus! {

#[derive(Debug, Clone, PartialEq, Eq)]
pub enum DatabaseError {
    SqliteError(String),
    /// A statement was issued before the database was given its path.
    NotInitialized,
}

impl DatabaseError {
    pub open spec fn message_spec(self) -> Seq<char> {
        match self {
            DatabaseError::SqliteError(detail) => "Database error: "@ + detail@,
            DatabaseError::NotInitialized => "Database not initialized"@,
        }
    }

    /// The text shown to the user.
    pub fn message(&self) -> (text: String)
        ensures
            text@ == self.message_spec(),
    {
        match self {
            DatabaseError::SqliteError(detail) => String::from_str("Database error: ").concat(
                detail.as_str(),
            ),
            DatabaseError::NotInitialized => String::from_str("Database not initialized"),
        }
    }
}

/// The handle. Its view is the path of the database, once it has one.
pub struct Database {
    path: Option<String>,
}

impl View for Database {
    type V = Option<Seq<char>>;

    closed spec fn view(&self) -> Option<Seq<char>> {
        match self.path {
            Some(path) => Some(path@),
            None => None,
        }
    }
}

impl Database {
    /// A handle that has no path yet.
    pub fn new() -> (database: Self)
        ensures
            database@ is None,
    {
        Database { path: None }
    }

    pub fn is_initialized(&self) -> (initialized: bool)
        ensures
            initialized == (self@ is Some),
    {
        self.path.is_some()
    }

    /// The path, once the handle has one.
    pub fn path(&self) -> (path: Option<&str>)
        ensures
            match path {
                Some(path) => self@ == Some(path@),
                None => self@ is None,
            },
    {
        match &self.path {
            Some(path) => Some(path.as_str()),
            None => None,
        }
    }
}

/// Gives the handle its path. A handle that had one takes the new one.
pub fn initialize(database: &mut Database, path: &str) -> (result: Result<(), DatabaseError>)
    ensures
        result is Ok,
        final(database)@ == Some(path@),
{
    database.path = Some(String::from_str(path));
    Ok(())
}

/// Checks a write statement against the handle: it is refused with
/// `NotInitialized` exactly when the handle has no path.
pub fn execute(database: &Database, statement: &str, params: &[String]) -> (result: Result<
    (),
    DatabaseError,
>)
    ensures
        database@ is None ==> result == Err::<(), DatabaseError>(DatabaseError::NotInitialized),
        database@ is Some ==> result is Ok,
{
    if !database.is_initialized() {
        return Err(DatabaseError::NotInitialized);
    }
    Ok(())
}

/// Checks a read statement against the handle, and gives its rows as a JSON
/// array: it is refused with `NotInitialized` exactly when the handle has no
/// path, and else finds no rows.
pub fn query(database: &Database, statement: &str, params: &[String]) -> (result: Result<
    String,
    DatabaseError,
>)
    ensures
        database@ is None ==> result == Err::<String, DatabaseError>(
            DatabaseError::NotInitialized,
        ),
        database@ is Some ==> result is Ok && result->Ok_0@ == "[]"@,
{
    if !database.is_initialized() {
        return Err(DatabaseError::NotInitialized);
    }
    Ok(String::from_str("[]"))
}

} // verus!
