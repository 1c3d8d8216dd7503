//! The ways an operation of the service can fail.

use vstd::prelude::*;

verus! {

/// Why the tables refused a statement.
#[derive(Clone, Copy, Debug, PartialEq, Eq, Structural)]
pub enum Fault {
    /// A row with the same identifier is already stored.
    DuplicateKey,
    /// The statement needed exactly one row and matched none.
    RowNotFound,
    /// A list or a task was given an empty title.
    EmptyTitle,
}

/// The failures that callers can tell apart.
#[derive(Clone, Copy, Debug, PartialEq, Eq, Structural)]
pub enum Error {
    /// A user who has not been deleted already holds the username.
    UsernameTaken,
    /// No user who has not been deleted holds the username.
    UserNotFound,
    /// The user exists and the password is not theirs.
    InvalidCredentials,
    /// The session handle is unknown, expired or destroyed.
    SessionInvalid,
    /// The tables refused the statement.
    StorageFault(Fault),
    /// A stored password hash is not a well-formed hash string, or claims
    /// parameters that the hasher does not take.
    CorruptCredential,
    /// The hasher rejected the salt or the password.
    HashingFailed,
}

impl Fault {
    /// The text of [`Fault::message`].
    pub open spec fn message_text(self) -> Seq<char> {
        match self {
            Fault::DuplicateKey => "duplicate key"@,
            Fault::RowNotFound => "no rows returned"@,
            Fault::EmptyTitle => "title must not be empty"@,
        }
    }

    /// A short description of the fault.
    pub fn message(&self) -> (r: String)
        ensures
            r@ == self.message_text(),
    {
        match self {
            Fault::DuplicateKey => "duplicate key".to_owned(),
            Fault::RowNotFound => "no rows returned".to_owned(),
            Fault::EmptyTitle => "title must not be empty".to_owned(),
        }
    }
}

impl Error {
    /// The text of [`Error::message`].
    pub open spec fn message_text(self) -> Seq<char> {
        match self {
            Error::UsernameTaken => "User already exists"@,
            Error::UserNotFound => "User not found"@,
            Error::InvalidCredentials => "Invalid credentials"@,
            Error::SessionInvalid => "Session invalid"@,
            Error::StorageFault(fault) => "Storage error: "@ + fault.message_text(),
            Error::CorruptCredential => "Corrupt credential"@,
            Error::HashingFailed => "Failed to hash password"@,
        }
    }

    /// A description of the failure, fit for a log line.
    pub fn message(&self) -> (r: String)
        ensures
            r@ == self.message_text(),
    {
        match self {
            Error::UsernameTaken => "User already exists".to_owned(),
            Error::UserNotFound => "User not found".to_owned(),
            Error::InvalidCredentials => "Invalid credentials".to_owned(),
            Error::SessionInvalid => "Session invalid".to_owned(),
            Error::StorageFault(fault) => {
                let detail = fault.message();
                "Storage error: ".to_owned().concat(detail.as_str())
            },
            Error::CorruptCredential => "Corrupt credential".to_owned(),
            Error::HashingFailed => "Failed to hash password".to_owned(),
        }
    }
}

} // verus!
