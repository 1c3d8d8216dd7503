//! A user as the service hands it around.

use vstd::prelude::*;
use crate::model::db;
use crate::model::db::UserRow;
use crate::model::ident::{random_id, Id};
use crate::repository::error::Error;
use crate::util::password_hash::{
    argon2_phc, hash_password, verification, verify_password,
};

verus! {

/// A user: identifier, username and password hash.
#[derive(Debug, PartialEq, Eq)]
pub struct User {
    pub id: Id,
    pub username: String,
    pub password_hash: String,
}

/// What a [`User`] holds.
pub ghost struct UserView {
    pub id: Id,
    pub username: Seq<char>,
    pub password_hash: Seq<char>,
}

impl UserView {
    /// The row that stores this user, not deleted.
    pub open spec fn row(self) -> UserRow {
        UserRow {
            id: self.id,
            username: self.username,
            password_hash: self.password_hash,
            deleted_at: None,
        }
    }

    /// The user that a row stores.
    pub open spec fn of_row(row: UserRow) -> UserView {
        UserView { id: row.id, username: row.username, password_hash: row.password_hash }
    }

    /// The form in which a user leaves the service: without the hash.
    pub open spec fn exposed(self) -> UserView {
        UserView { id: self.id, username: self.username, password_hash: Seq::empty() }
    }
}

impl View for User {
    type V = UserView;

    open spec fn view(&self) -> UserView {
        UserView {
            id: self.id,
            username: self.username@,
            password_hash: self.password_hash@,
        }
    }
}

impl Clone for User {
    fn clone(&self) -> (r: Self)
        ensures
            r@ == self@,
    {
        User {
            id: self.id,
            username: self.username.clone(),
            password_hash: self.password_hash.clone(),
        }
    }
}

/// What an optional user holds.
pub open spec fn user_view_of(found: Option<User>) -> Option<UserView> {
    match found {
        Some(u) => Some(u@),
        None => None,
    }
}

/// The user, if any, that an optional row stores.
pub open spec fn user_of_row(found: Option<UserRow>) -> Option<UserView> {
    match found {
        Some(row) => Some(UserView::of_row(row)),
        None => None,
    }
}

/// What signing in returns for a user who was found, given the verdict on
/// the password: the user if it matches, `InvalidCredentials` if it does not,
/// and the verdict's own error if there is none.
pub open spec fn credentials_outcome(user: UserView, verdict: Result<bool, Error>) -> Result<
    UserView,
    Error,
> {
    match verdict {
        Ok(true) => Ok(user),
        Ok(false) => Err(Error::InvalidCredentials),
        Err(e) => Err(e),
    }
}

/// What a `Result` of a user holds.
pub open spec fn user_result_view(r: Result<User, Error>) -> Result<UserView, Error> {
    match r {
        Ok(u) => Ok(u@),
        Err(e) => Err(e),
    }
}

impl User {
    /// Admits this user if the verdict on the password is a match.
    ///
    /// Fails with `InvalidCredentials` when the verdict is a mismatch, and
    /// with the verdict's own error when there is no verdict.
    pub fn authenticated(self, verdict: Result<bool, Error>) -> (r: Result<User, Error>)
        ensures
            user_result_view(r) == credentials_outcome(self@, verdict),
    {
        match verdict {
            Ok(true) => Ok(self),
            Ok(false) => Err(Error::InvalidCredentials),
            Err(e) => Err(e),
        }
    }

    /// A new user with a random identifier, whose password is hashed with
    /// `salt`.
    ///
    /// Fails with `HashingFailed` exactly where Argon2 rejects the salt or
    /// the password. The hash of a user that is returned matches `password`.
    pub fn new(username: String, password: String, salt: &str) -> (r: Result<User, Error>)
        ensures
            match r {
                Ok(u) => u@.username == username@ && argon2_phc(password@, salt@) == Some(
                    u@.password_hash,
                ) && verification(password@, u@.password_hash) == Ok::<bool, Error>(true),
                Err(e) => e == Error::HashingFailed && argon2_phc(password@, salt@) is None,
            },
    {
        match hash_password(password.as_str(), salt) {
            Ok(password_hash) => Ok(User { id: random_id(), username, password_hash }),
            Err(e) => Err(e),
        }
    }

    /// Whether `password` is this user's, by the stored hash.
    ///
    /// Fails with `CorruptCredential` exactly where the stored hash is not a
    /// PHC string or claims a parallelism above the greatest that Argon2
    /// takes.
    pub fn verify_password(&self, password: &str) -> (r: Result<bool, Error>)
        ensures
            r == verification(password@, self@.password_hash),
    {
        verify_password(password, self.password_hash.as_str())
    }

    /// The form in which this user leaves the service: the same identifier
    /// and username, and no hash.
    pub fn exposed(&self) -> (r: User)
        ensures
            r@ == self@.exposed(),
    {
        User { id: self.id, username: self.username.clone(), password_hash: String::new() }
    }

    /// The user that a row stores.
    pub fn from_row(row: &db::User) -> (r: User)
        ensures
            r@ == UserView::of_row(row@),
    {
        User {
            id: row.id,
            username: row.username.clone(),
            password_hash: row.password_hash.clone(),
        }
    }

    /// The row that stores this user, not deleted.
    pub fn to_row(&self) -> (r: db::User)
        ensures
            r@ == self@.row(),
    {
        db::User {
            id: self.id,
            username: self.username.clone(),
            password_hash: self.password_hash.clone(),
            deleted_at: None,
        }
    }
}

} // verus!
