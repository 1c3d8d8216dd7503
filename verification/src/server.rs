//! The operations that a transport layer offers to its clients: each one
//! resolves the caller's session, where it needs an identity, and then works
//! on the repository on that identity's behalf.

use vstd::prelude::*;
use crate::model::ident::Id;
use crate::model::list::{created_list, list_views, List};
use crate::model::task::{created_task, task_views, Task};
use crate::model::time::Timestamp;
use crate::repository::error::Error;
use crate::repository::repository::{login_outcome, outcome, registered, Repository};
use crate::repository::tables::Tables;
use crate::session::{bound_in, resolution, SessionBinder};
use crate::util::password_hash::argon2_phc;

verus! {

/// Signs a user in and binds a fresh session handle to them.
///
/// Fails as [`Repository::authenticate`] does: `UserNotFound`,
/// `InvalidCredentials` or `CorruptCredential`; no session is then bound.
pub fn login(
    repository: &Repository,
    sessions: &mut SessionBinder,
    username: &str,
    password: &str,
) -> (r: Result<Id, Error>)
    ensures
        final(sessions).ttl() == old(sessions).ttl(),
        match login_outcome(repository@.active_user(username@), password@) {
            Err(e) => r == Err::<Id, Error>(e) && final(sessions)@ == old(sessions)@,
            Ok(user) => r matches Ok(handle) && bound_in(
                old(sessions)@,
                final(sessions)@,
                handle,
                user.id,
                old(sessions).ttl(),
            ),
        },
{
    match repository.authenticate(username, password) {
        Ok(user) => Ok(sessions.create(user.id)),
        Err(e) => Err(e),
    }
}

/// Whether registering `username` with `hash` under `user_id` leads from
/// `before` to `after` with `outcome`.
pub open spec fn registered_in(
    before: Tables,
    after: Tables,
    username: Seq<char>,
    hash: Seq<char>,
    outcome: Result<(), Error>,
    user_id: Id,
) -> bool {
    (after, outcome) == before.insert_user(registered(user_id, username, hash).row())
}

/// Registers a user and binds a fresh session handle to them.
///
/// Fails as [`Repository::register`] does: `UsernameTaken` when the username
/// is held, whatever the password and the salt are, and otherwise
/// `HashingFailed` or a duplicate-key fault; nothing is then stored and no
/// session is bound.
pub fn register(
    repository: &mut Repository,
    sessions: &mut SessionBinder,
    username: String,
    password: String,
    salt: &str,
) -> (r: Result<Id, Error>)
    ensures
        old(repository).wf() ==> final(repository).wf(),
        final(sessions).ttl() == old(sessions).ttl(),
        old(repository)@.username_taken(username@) ==> r == Err::<Id, Error>(
            Error::UsernameTaken,
        ) && final(repository)@ == old(repository)@,
        !old(repository)@.username_taken(username@) && argon2_phc(password@, salt@) is None ==> r
            == Err::<Id, Error>(Error::HashingFailed) && final(repository)@ == old(repository)@,
        !old(repository)@.username_taken(username@) ==> (argon2_phc(
            password@,
            salt@,
        ) matches Some(hash) ==> exists|id: Id|
            {
                &&& #[trigger] registered_in(
                    old(repository)@,
                    final(repository)@,
                    username@,
                    hash,
                    outcome(r),
                    id,
                )
                &&& r matches Ok(handle) ==> bound_in(
                    old(sessions)@,
                    final(sessions)@,
                    handle,
                    id,
                    old(sessions).ttl(),
                )
            }),
        r is Err ==> final(sessions)@ == old(sessions)@,
        r is Ok ==> final(repository)@.username_taken(username@),
{
    let ghost name = username@;
    let ghost pw = password@;
    let registration = repository.register(username, password, salt);
    proof {
        if !old(repository)@.username_taken(name) && argon2_phc(pw, salt@) is Some {
            let hash = argon2_phc(pw, salt@)->0;
            let id = choose|id: Id|
                {
                    &&& (repository@, outcome(registration)) == old(repository)@.insert_user(
                        (#[trigger] registered(id, name, hash)).row(),
                    )
                    &&& registration matches Ok(u) ==> u@ == registered(id, name, hash)
                };
            assert(registered_in(
                old(repository)@,
                repository@,
                name,
                hash,
                outcome(registration),
                id,
            ));
        }
    }
    match registration {
        Ok(user) => {
            let handle = sessions.create(user.id);
            proof {
                let hash = argon2_phc(pw, salt@)->0;
                assert(outcome(Ok::<Id, Error>(handle)) == outcome(registration));
                assert(registered_in(
                    old(repository)@,
                    repository@,
                    name,
                    hash,
                    outcome(Ok::<Id, Error>(handle)),
                    user.id,
                ));
            }
            Ok(handle)
        },
        Err(e) => {
            assert(outcome(Err::<Id, Error>(e)) == outcome(registration));
            Err(e)
        },
    }
}

/// Signs out: unbinds the session handle. Never fails, whether or not the
/// handle was bound.
pub fn logout(sessions: &mut SessionBinder, handle: Id) -> (r: Result<(), Error>)
    ensures
        r is Ok,
        final(sessions).ttl() == old(sessions).ttl(),
        final(sessions)@ == old(sessions)@.remove(handle),
{
    sessions.destroy(handle);
    Ok(())
}

/// Whether creating a list of `owner` with `title`, under some identifier and
/// at some instant, leads from `before` to `after` and returns `r`.
pub open spec fn list_created_in(
    before: Tables,
    after: Tables,
    owner: Id,
    title: Seq<char>,
    r: Result<List, Error>,
) -> bool {
    exists|id: Id, at: Timestamp|
        {
            &&& (after, outcome(r)) == before.insert_list(
                #[trigger] created_list(id, title, at, owner),
            )
            &&& r matches Ok(l) ==> l@ == created_list(id, title, at, owner)
        }
}

/// Whether creating a task of `list_id` by `creator`, under some identifier
/// and at some instant, leads from `before` to `after` and returns `r`.
pub open spec fn task_created_in(
    before: Tables,
    after: Tables,
    creator: Id,
    title: Seq<char>,
    due_date: Timestamp,
    list_id: Id,
    r: Result<Task, Error>,
) -> bool {
    exists|id: Id, at: Timestamp|
        {
            &&& (after, outcome(r)) == before.insert_task(
                (#[trigger] created_task(id, title, due_date, list_id, at, creator)).row(),
            )
            &&& r matches Ok(t) ==> t@ == created_task(id, title, due_date, list_id, at, creator)
        }
}

/// Creates a list owned by the user of the session and returns it.
///
/// Fails with `SessionInvalid` when the handle does not resolve, and else as
/// [`Repository::create_list`] does; nothing is then stored.
pub fn create_list(
    repository: &mut Repository,
    sessions: &SessionBinder,
    handle: Id,
    title: String,
) -> (r: Result<List, Error>)
    ensures
        old(repository).wf() ==> final(repository).wf(),
        exists|now: Timestamp|
            match #[trigger] resolution(sessions@, handle, now) {
                Err(e) => r == Err::<List, Error>(e) && final(repository)@ == old(repository)@,
                Ok(owner) => list_created_in(
                    old(repository)@,
                    final(repository)@,
                    owner,
                    title@,
                    r,
                ),
            },
{
    let resolved = sessions.resolve(handle);
    match resolved {
        Ok(owner) => {
            let r = repository.create_list(owner, title);
            proof {
                let now = choose|now: Timestamp| resolved == resolution(sessions@, handle, now);
                assert(resolution(sessions@, handle, now) == Ok::<Id, Error>(owner));
            }
            r
        },
        Err(e) => Err(e),
    }
}

/// The lists of the user of the session that have not been deleted.
///
/// Fails with `SessionInvalid` when the handle does not resolve.
pub fn get_lists(repository: &Repository, sessions: &SessionBinder, handle: Id) -> (r: Result<
    Vec<List>,
    Error,
>)
    ensures
        exists|now: Timestamp|
            match #[trigger] resolution(sessions@, handle, now) {
                Err(e) => r == Err::<Vec<List>, Error>(e),
                Ok(owner) => r matches Ok(lists) && list_views(lists@)
                    == repository@.visible_lists(owner),
            },
{
    let resolved = sessions.resolve(handle);
    proof {
        let now = choose|now: Timestamp| resolved == resolution(sessions@, handle, now);
        assert(resolved == resolution(sessions@, handle, now));
    }
    match resolved {
        Ok(owner) => repository.get_lists(owner),
        Err(e) => Err(e),
    }
}

/// Deletes a list on behalf of the user of the session.
///
/// Fails with `SessionInvalid` when the handle does not resolve. Otherwise
/// succeeds, and the list is marked deleted if that user owns it and it is
/// not yet deleted; if not, nothing changes.
pub fn delete_list(
    repository: &mut Repository,
    sessions: &SessionBinder,
    handle: Id,
    list: List,
) -> (r: Result<(), Error>)
    ensures
        old(repository).wf() ==> final(repository).wf(),
        exists|now: Timestamp|
            match #[trigger] resolution(sessions@, handle, now) {
                Err(e) => r == Err::<(), Error>(e) && final(repository)@ == old(repository)@,
                Ok(owner) => r is Ok && exists|at: Timestamp|
                    final(repository)@ == #[trigger] old(repository)@.delete_list(
                        list.id,
                        owner,
                        at,
                    ),
            },
{
    let resolved = sessions.resolve(handle);
    proof {
        let now = choose|now: Timestamp| resolved == resolution(sessions@, handle, now);
        assert(resolved == resolution(sessions@, handle, now));
    }
    match resolved {
        Ok(owner) => {
            let r = repository.delete_list(list.id, owner);
            proof {
                let at = choose|at: Timestamp|
                    repository@ == #[trigger] old(repository)@.delete_list(list.id, owner, at);
                assert(repository@ == old(repository)@.delete_list(list.id, owner, at));
            }
            r
        },
        Err(e) => Err(e),
    }
}

/// Creates a task in a list, on behalf of the user of the session, and
/// returns it. Whose list it is plays no part.
///
/// Fails with `SessionInvalid` when the handle does not resolve, and else as
/// [`Repository::create_task`] does; nothing is then stored.
pub fn create_task(
    repository: &mut Repository,
    sessions: &SessionBinder,
    handle: Id,
    title: String,
    due_date: Timestamp,
    list_id: Id,
) -> (r: Result<Task, Error>)
    ensures
        old(repository).wf() ==> final(repository).wf(),
        exists|now: Timestamp|
            match #[trigger] resolution(sessions@, handle, now) {
                Err(e) => r == Err::<Task, Error>(e) && final(repository)@ == old(repository)@,
                Ok(creator) => task_created_in(
                    old(repository)@,
                    final(repository)@,
                    creator,
                    title@,
                    due_date,
                    list_id,
                    r,
                ),
            },
{
    let resolved = sessions.resolve(handle);
    match resolved {
        Ok(creator) => {
            let r = repository.create_task(list_id, title, due_date, creator);
            proof {
                let now = choose|now: Timestamp| resolved == resolution(sessions@, handle, now);
                assert(resolution(sessions@, handle, now) == Ok::<Id, Error>(creator));
            }
            r
        },
        Err(e) => Err(e),
    }
}

/// The tasks of a list, completed or not. No session is needed, and whose
/// list it is plays no part. Never fails.
pub fn get_tasks(repository: &Repository, list_id: Id) -> (r: Result<Vec<Task>, Error>)
    ensures
        r matches Ok(tasks) && task_views(tasks@) == repository@.list_tasks(list_id),
{
    repository.get_list_tasks(list_id)
}

/// Completes a task as the user of the session, whoever owns its list.
///
/// Fails with `SessionInvalid` when the handle does not resolve. Otherwise
/// succeeds; where no task has the identifier nothing changes.
pub fn complete_task(
    repository: &mut Repository,
    sessions: &SessionBinder,
    handle: Id,
    task: Task,
) -> (r: Result<(), Error>)
    ensures
        old(repository).wf() ==> final(repository).wf(),
        exists|now: Timestamp|
            match #[trigger] resolution(sessions@, handle, now) {
                Err(e) => r == Err::<(), Error>(e) && final(repository)@ == old(repository)@,
                Ok(completer) => r is Ok && exists|at: Timestamp|
                    final(repository)@ == #[trigger] old(repository)@.complete_task(
                        task.id,
                        completer,
                        at,
                    ),
            },
{
    let resolved = sessions.resolve(handle);
    proof {
        let now = choose|now: Timestamp| resolved == resolution(sessions@, handle, now);
        assert(resolved == resolution(sessions@, handle, now));
    }
    match resolved {
        Ok(completer) => {
            let r = repository.complete_task(task.id, completer);
            proof {
                let at = choose|at: Timestamp|
                    repository@ == #[trigger] old(repository)@.complete_task(
                        task.id,
                        completer,
                        at,
                    );
                assert(repository@ == old(repository)@.complete_task(task.id, completer, at));
            }
            r
        },
        Err(e) => Err(e),
    }
}

/// Reopens a task. No session is needed. Never fails; where no task has the
/// identifier nothing changes.
pub fn uncomplete_task(repository: &mut Repository, task: Task) -> (r: Result<(), Error>)
    ensures
        old(repository).wf() ==> final(repository).wf(),
        r is Ok,
        final(repository)@ == old(repository)@.uncomplete_task(task.id),
{
    repository.uncomplete_task(task.id)
}

} // verus!
