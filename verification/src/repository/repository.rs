//! The repository: every operation of the service on users, lists and tasks,
//! each on behalf of an identity that the caller has already resolved.

use vstd::prelude::*;
use crate::model::db::{ListRow, UserRow};
use crate::model::ident::Id;
use crate::model::list::{created_list, list_views, List};
use crate::model::task::{created_task, task_views, Task};
use crate::model::time::{now, Timestamp};
use crate::model::user::{credentials_outcome, user_result_view, User, UserView};
use crate::repository::error::{Error, Fault};
use crate::repository::laws::law_registered_user_signs_in;
use crate::repository::store::Store;
use crate::repository::tables::Tables;
use crate::util::password_hash::{argon2_phc, verification};

verus! {

/// The outcome of a call without what it returned on success.
pub open spec fn outcome<T>(r: Result<T, Error>) -> Result<(), Error> {
    match r {
        Ok(_) => Ok(()),
        Err(e) => Err(e),
    }
}

/// What signing in with `password` returns when the search for the username
/// found `found`.
pub open spec fn login_outcome(found: Option<UserRow>, password: Seq<char>) -> Result<
    UserView,
    Error,
> {
    match found {
        None => Err(Error::UserNotFound),
        Some(row) => credentials_outcome(
            UserView::of_row(row),
            verification(password, row.password_hash),
        ),
    }
}

/// The user who registers as `username`, once an identifier is drawn and the
/// password is hashed.
pub open spec fn registered(id: Id, username: Seq<char>, password_hash: Seq<char>) -> UserView {
    UserView { id, username, password_hash }
}

/// What a `Result` of a list holds.
pub open spec fn list_result_view(r: Result<List, Error>) -> Result<ListRow, Error> {
    match r {
        Ok(l) => Ok(l@),
        Err(e) => Err(e),
    }
}

/// What looking up a list returns when the search found `found`.
pub open spec fn lookup_outcome(found: Option<ListRow>) -> Result<ListRow, Error> {
    match found {
        Some(row) => Ok(row),
        None => Err(Error::StorageFault(Fault::RowNotFound)),
    }
}

/// The service's data and the operations on it.
pub struct Repository {
    store: Store,
}

impl View for Repository {
    type V = Tables;

    closed spec fn view(&self) -> Tables {
        self.store@
    }
}

impl Repository {
    /// The store obeys the rules of the schema.
    pub open spec fn wf(&self) -> bool {
        self@.valid()
    }

    /// A repository without rows.
    pub fn new() -> (r: Repository)
        ensures
            r.wf(),
            r@ == Tables::empty(),
    {
        Repository { store: Store::new() }
    }

    /// A repository over the rows of `store`.
    pub fn with_store(store: Store) -> (r: Repository)
        ensures
            r@ == store@,
    {
        Repository { store }
    }

    /// The store behind this repository.
    pub fn store(&self) -> (s: &Store)
        ensures
            s@ == self@,
    {
        &self.store
    }

    /// Registers a user: looks the username up, hashes the password with
    /// `salt`, draws an identifier, and stores the row.
    ///
    /// Fails with `UsernameTaken` when a user who has not been deleted holds
    /// the username, whatever the password and the salt are. Otherwise fails
    /// with `HashingFailed` exactly where Argon2 rejects the salt or the
    /// password, and with a duplicate-key fault when the identifier that was
    /// drawn is taken. On failure nothing changes. On success the username
    /// is taken, and the stored hash matches the password.
    pub fn register(&mut self, username: String, password: String, salt: &str) -> (r: Result<
        User,
        Error,
    >)
        ensures
            old(self).wf() ==> final(self).wf(),
            old(self)@.username_taken(username@) ==> r == Err::<User, Error>(
                Error::UsernameTaken,
            ) && final(self)@ == old(self)@,
            !old(self)@.username_taken(username@) && argon2_phc(password@, salt@) is None ==> r
                == Err::<User, Error>(Error::HashingFailed) && final(self)@ == old(self)@,
            !old(self)@.username_taken(username@) ==> (argon2_phc(password@, salt@) matches Some(
                hash,
            ) ==> exists|id: Id|
                {
                    &&& (final(self)@, outcome(r)) == old(self)@.insert_user(
                        (#[trigger] registered(id, username@, hash)).row(),
                    )
                    &&& r matches Ok(u) ==> u@ == registered(id, username@, hash)
                }),
            r matches Ok(u) ==> verification(password@, u@.password_hash) == Ok::<bool, Error>(
                true,
            ),
            r is Ok ==> final(self)@.username_taken(username@),
    {
        let ghost name = username@;
        let ghost pw = password@;
        if self.store.find_active_user(username.as_str()).is_some() {
            return Err(Error::UsernameTaken);
        }
        match User::new(username, password, salt) {
            Ok(user) => {
                let inserted = user.insert_user(&mut self.store);
                let r = match inserted {
                    Ok(()) => Ok(user),
                    Err(e) => Err(e),
                };
                proof {
                    let witness = registered(user.id, name, argon2_phc(pw, salt@)->0);
                    assert(user@ == witness);
                    assert((self@, outcome(r)) == old(self)@.insert_user(witness.row()));
                    if r is Ok {
                        law_registered_user_signs_in(old(self)@, witness, pw);
                    }
                }
                r
            },
            Err(e) => Err(e),
        }
    }

    /// Signs a user in.
    ///
    /// Fails with `UserNotFound` when no user who has not been deleted holds
    /// the username, with `InvalidCredentials` when one does and the password
    /// does not match the stored hash, and with `CorruptCredential` when the
    /// stored hash is not a PHC string or claims a parallelism above the
    /// greatest that Argon2 takes. Otherwise returns the user.
    pub fn authenticate(&self, username: &str, password: &str) -> (r: Result<User, Error>)
        ensures
            user_result_view(r) == login_outcome(self@.active_user(username@), password@),
    {
        match self.store.find_active_user(username) {
            None => Err(Error::UserNotFound),
            Some(row) => {
                let user = User::from_row(&row);
                let verdict = user.verify_password(password);
                user.authenticated(verdict)
            },
        }
    }

    /// Marks a user as deleted now. A user who is already deleted keeps the
    /// earlier mark; where no user has the identifier nothing changes. Never
    /// fails.
    pub fn delete_user(&mut self, user_id: Id) -> (r: Result<(), Error>)
        ensures
            old(self).wf() ==> final(self).wf(),
            r is Ok,
            exists|at: Timestamp| final(self)@ == #[trigger] old(self)@.delete_user(user_id, at),
    {
        let at = now();
        let r = self.delete_user_at(user_id, at);
        assert(self@ == old(self)@.delete_user(user_id, at));
        r
    }

    /// Marks a user as deleted at `deleted_at`. A user who is already
    /// deleted keeps the earlier mark; where no user has the identifier
    /// nothing changes. Never fails.
    pub fn delete_user_at(&mut self, user_id: Id, deleted_at: Timestamp) -> (r: Result<
        (),
        Error,
    >)
        ensures
            old(self).wf() ==> final(self).wf(),
            r is Ok,
            final(self)@ == old(self)@.delete_user(user_id, deleted_at),
    {
        self.store.delete_user(user_id, deleted_at);
        Ok(())
    }

    /// Creates a list of `owner_id`, with a fresh identifier and the current
    /// instant as its creation.
    ///
    /// The outcome is that of inserting the row so made: an empty-title
    /// fault when the title is empty, a duplicate-key fault when the
    /// identifier is taken, and else the new list. On failure nothing
    /// changes.
    pub fn create_list(&mut self, owner_id: Id, title: String) -> (r: Result<List, Error>)
        ensures
            old(self).wf() ==> final(self).wf(),
            exists|id: Id, at: Timestamp|
                {
                    &&& (final(self)@, outcome(r)) == old(self)@.insert_list(
                        #[trigger] created_list(id, title@, at, owner_id),
                    )
                    &&& r matches Ok(l) ==> l@ == created_list(id, title@, at, owner_id)
                },
    {
        let list = List::new(title, owner_id);
        match list.create_list(&mut self.store) {
            Ok(()) => Ok(list),
            Err(e) => Err(e),
        }
    }

    /// The lists that `owner_id` created and that have not been deleted, in
    /// the order of their creation. Never fails.
    pub fn get_lists(&self, owner_id: Id) -> (r: Result<Vec<List>, Error>)
        ensures
            r matches Ok(lists) && list_views(lists@) == self@.visible_lists(owner_id),
    {
        List::get_user_lists(owner_id, &self.store)
    }

    /// The list with the identifier, whoever owns it.
    ///
    /// Fails with a row-not-found fault when no list has the identifier or
    /// the one that has it is deleted.
    pub fn get_list(&self, list_id: Id) -> (r: Result<List, Error>)
        ensures
            list_result_view(r) == lookup_outcome(self@.live_list(list_id)),
    {
        match self.store.find_live_list(list_id) {
            Some(row) => Ok(List::from_row(&row)),
            None => Err(Error::StorageFault(Fault::RowNotFound)),
        }
    }

    /// Marks a list as deleted now, on behalf of `owner_id`.
    ///
    /// The row is changed only if `owner_id` created it and it is not yet
    /// deleted. Otherwise nothing changes, and the call reports success all
    /// the same: a caller cannot tell a list of another user from one that
    /// is gone.
    pub fn delete_list(&mut self, list_id: Id, owner_id: Id) -> (r: Result<(), Error>)
        ensures
            old(self).wf() ==> final(self).wf(),
            r is Ok,
            exists|at: Timestamp| final(self)@ == #[trigger] old(self)@.delete_list(
                list_id,
                owner_id,
                at,
            ),
    {
        let at = now();
        let _ = self.store.delete_list(list_id, owner_id, at);
        assert(self@ == old(self)@.delete_list(list_id, owner_id, at));
        Ok(())
    }

    /// Creates a task in a list, with a fresh identifier and the current
    /// instant as its creation, not completed. Whose list it is plays no
    /// part.
    ///
    /// The outcome is that of inserting the row so made: an empty-title
    /// fault when the title is empty, a duplicate-key fault when the
    /// identifier is taken, and else the new task. On failure nothing
    /// changes.
    pub fn create_task(
        &mut self,
        list_id: Id,
        title: String,
        due_date: Timestamp,
        creator_id: Id,
    ) -> (r: Result<Task, Error>)
        ensures
            old(self).wf() ==> final(self).wf(),
            exists|id: Id, at: Timestamp|
                {
                    &&& (final(self)@, outcome(r)) == old(self)@.insert_task(
                        (#[trigger] created_task(
                            id,
                            title@,
                            due_date,
                            list_id,
                            at,
                            creator_id,
                        )).row(),
                    )
                    &&& r matches Ok(t) ==> t@ == created_task(
                        id,
                        title@,
                        due_date,
                        list_id,
                        at,
                        creator_id,
                    )
                },
    {
        let task = Task::new(title, due_date, list_id, creator_id);
        match task.create_task(&mut self.store) {
            Ok(()) => Ok(task),
            Err(e) => Err(e),
        }
    }

    /// The tasks of a list, completed or not, in the order of their
    /// creation, each with the username of its completer. Whose list it is
    /// plays no part. Never fails.
    pub fn get_list_tasks(&self, list_id: Id) -> (r: Result<Vec<Task>, Error>)
        ensures
            r matches Ok(tasks) && task_views(tasks@) == self@.list_tasks(list_id),
    {
        Task::get_list_tasks(list_id, &self.store)
    }

    /// Records that `completer_id` completed a task now, whatever was
    /// recorded before and whoever owns the list. Where no task has the
    /// identifier nothing changes. Never fails.
    pub fn complete_task(&mut self, task_id: Id, completer_id: Id) -> (r: Result<(), Error>)
        ensures
            old(self).wf() ==> final(self).wf(),
            r is Ok,
            exists|at: Timestamp| final(self)@ == #[trigger] old(self)@.complete_task(
                task_id,
                completer_id,
                at,
            ),
    {
        let at = now();
        let _ = self.store.complete_task(task_id, completer_id, at);
        assert(self@ == old(self)@.complete_task(task_id, completer_id, at));
        Ok(())
    }

    /// Clears the completion instant and the completer of a task. Where no
    /// task has the identifier nothing changes. Never fails.
    pub fn uncomplete_task(&mut self, task_id: Id) -> (r: Result<(), Error>)
        ensures
            old(self).wf() ==> final(self).wf(),
            r is Ok,
            final(self)@ == old(self)@.uncomplete_task(task_id),
    {
        let _ = self.store.uncomplete_task(task_id);
        Ok(())
    }

    /// Completes a task now, by `user_id`, if it is open, and reopens it if
    /// it is completed. Where no task has the identifier nothing changes.
    /// Never fails.
    pub fn toggle_task_completion(&mut self, task_id: Id, user_id: Id) -> (r: Result<(), Error>)
        ensures
            old(self).wf() ==> final(self).wf(),
            r is Ok,
            exists|at: Timestamp| final(self)@ == #[trigger] old(self)@.toggle_task(
                task_id,
                user_id,
                at,
            ),
    {
        let at = now();
        let _ = self.store.toggle_task(task_id, user_id, at);
        assert(self@ == old(self)@.toggle_task(task_id, user_id, at));
        Ok(())
    }
}

} // verus!
