//! Users in the store.

use vstd::prelude::*;
use crate::model::user::{user_of_row, user_view_of, User};
use crate::repository::error::Error;
use crate::repository::store::Store;

verus! {

impl User {
    /// Stores this user.
    ///
    /// Fails with `UsernameTaken` when a user who has not been deleted holds
    /// the username, and with a duplicate-key fault when the identifier is
    /// taken; the store is then unchanged.
    pub fn insert_user(&self, store: &mut Store) -> (r: Result<(), Error>)
        ensures
            old(store).wf() ==> final(store).wf(),
            (final(store)@, r) == old(store)@.insert_user(self@.row()),
    {
        store.insert_user(self.to_row())
    }

    /// The user who holds `username` and has not been deleted, if there is
    /// one. Never fails.
    pub fn get_user_by_username(username: &str, store: &Store) -> (r: Result<Option<User>, Error>)
        ensures
            r matches Ok(found) && user_view_of(found) == user_of_row(
                store@.active_user(username@),
            ),
    {
        match store.find_active_user(username) {
            Some(row) => Ok(Some(User::from_row(&row))),
            None => Ok(None),
        }
    }
}

} // verus!
