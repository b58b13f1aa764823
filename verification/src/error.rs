//! The errors a command can end in, and the text each one is reported with.

use vstd::prelude::*;

verus! {

/// Why a command failed.
#[derive(Debug, Clone, PartialEq, Eq)]
pub enum DbError {
    /// An input is unusable: a port's text that writes no port, or a column
    /// without a name or a type. Holds the description.
    Configuration(String),
    /// A data command was invoked before the pool was created.
    NotInitialized,
    /// The pool was already created by an earlier call.
    AlreadyInitialized,
    /// The pool could not be created, or gave no client; holds the full text.
    Connection(String),
    /// The database refused or failed a statement; holds the full text.
    Execution(String),
}

impl DbError {
    /// The human-readable text this error is reported with.
    pub open spec fn message_spec(&self) -> Seq<char> {
        match self {
            DbError::Configuration(detail) => detail@,
            DbError::NotInitialized => "Database pool not initialized"@,
            DbError::AlreadyInitialized => "DB_POOL already set"@,
            DbError::Connection(text) => text@,
            DbError::Execution(text) => text@,
        }
    }

    /// Renders the error as the plain string handed across the command
    /// boundary.
    pub fn message(&self) -> (text: String)
        ensures
            text@ == self.message_spec(),
    {
        match self {
            DbError::Configuration(detail) => detail.clone(),
            DbError::NotInitialized => String::from_str("Database pool not initialized"),
            DbError::AlreadyInitialized => String::from_str("DB_POOL already set"),
            DbError::Connection(text) => text.clone(),
            DbError::Execution(text) => text.clone(),
        }
    }
}

} // verus!
