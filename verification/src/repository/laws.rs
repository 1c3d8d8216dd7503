//! What holds of the store across statements.

use vstd::prelude::*;
use crate::model::db::{ListRow, TaskRow, UserRow};
use crate::model::ident::Id;
use crate::model::time::Timestamp;
use crate::model::user::UserView;
use crate::repository::error::Error;
use crate::repository::repository::login_outcome;
use crate::repository::tables::{
    holds_username, in_list, is_user, lemma_filter_members, lemma_filter_push,
    lemma_filter_untouched, lemma_first_match_at, lemma_first_match_none, list_deleted, seen_by,
    Tables,
};
use crate::util::password_hash::verification;

verus! {

/// A username that was just registered, or was refused as taken, is taken:
/// registering it again at once is refused with `UsernameTaken`, whatever
/// else the second registration brings.
pub proof fn law_second_registration_is_refused(t: Tables, first: UserRow, second: UserRow)
    requires
        first.username == second.username,
        t.insert_user(first).1 is Ok || t.insert_user(first).1 == Err::<(), Error>(
            Error::UsernameTaken,
        ),
    ensures
        t.insert_user(first).0.username_taken(second.username),
        t.insert_user(first).0.insert_user(second).1 == Err::<(), Error>(Error::UsernameTaken),
        t.insert_user(first).0.insert_user(second).0 == t.insert_user(first).0,
{
    let after = t.insert_user(first).0;
    if t.insert_user(first).1 is Ok {
        let stored = UserRow { deleted_at: None, ..first };
        assert(after.users[t.users.len() as int] == stored);
        assert(holds_username(second.username)(stored));
        lemma_first_match_none(after.users, holds_username(second.username));
    }
}

/// A user who was just registered is the one found under their username;
/// signing in returns them when the password matches the stored hash, and
/// fails with `InvalidCredentials` when it does not.
pub proof fn law_registered_user_signs_in(t: Tables, user: UserView, password: Seq<char>)
    requires
        t.insert_user(user.row()).1 is Ok,
    ensures
        t.insert_user(user.row()).0.active_user(user.username) == Some(user.row()),
        verification(password, user.password_hash) == Ok::<bool, Error>(true) ==> login_outcome(
            t.insert_user(user.row()).0.active_user(user.username),
            password,
        ) == Ok::<UserView, Error>(user),
        verification(password, user.password_hash) == Ok::<bool, Error>(false) ==> login_outcome(
            t.insert_user(user.row()).0.active_user(user.username),
            password,
        ) == Err::<UserView, Error>(Error::InvalidCredentials),
{
    let after = t.insert_user(user.row()).0;
    let named = holds_username(user.username);
    lemma_first_match_none(t.users, named);
    assert(after.users[t.users.len() as int] == user.row());
    assert forall|j: int| 0 <= j < t.users.len() implies !named(#[trigger] after.users[j]) by {
        assert(after.users[j] == t.users[j]);
    }
    lemma_first_match_at(after.users, named, t.users.len() as int);
}

/// The form in which a user leaves the service holds their identifier and
/// username and nothing of the password hash: two users who differ in the
/// hash alone leave in the same form.
pub proof fn law_exposed_user_hides_hash(user: UserView, other: UserView)
    ensures
        user.exposed().id == user.id,
        user.exposed().username == user.username,
        user.exposed().password_hash.len() == 0,
        user.id == other.id && user.username == other.username ==> user.exposed()
            == other.exposed(),
{
}

/// Deleting a user never removes or changes a mark of deletion: a user who
/// is deleted stays as they are, and nothing else about any user changes.
pub proof fn law_deleted_user_stays_deleted(t: Tables, id: Id, at: Timestamp, i: int)
    requires
        0 <= i < t.users.len(),
    ensures
        t.delete_user(id, at).users.len() == t.users.len(),
        t.users[i].deleted_at is Some ==> t.delete_user(id, at).users[i] == t.users[i],
        t.delete_user(id, at).users[i].deleted_at is None ==> t.users[i].deleted_at is None,
        t.delete_user(id, at).users[i] == (UserRow {
            deleted_at: t.delete_user(id, at).users[i].deleted_at,
            ..t.users[i]
        }),
{
}

/// The owner of a list never changes: deleting, the one statement that
/// rewrites list rows, leaves identifier, title, creation and owner of every
/// row as they were, and never removes a mark of deletion.
pub proof fn law_list_owner_is_fixed(t: Tables, id: Id, owner: Id, at: Timestamp, i: int)
    requires
        0 <= i < t.lists.len(),
    ensures
        t.delete_list(id, owner, at).lists[i] == (ListRow {
            deleted_at: t.delete_list(id, owner, at).lists[i].deleted_at,
            ..t.lists[i]
        }),
        t.lists[i].deleted_at is Some ==> t.delete_list(id, owner, at).lists[i] == t.lists[i],
{
}

/// A list that was just created is the last of the lists its owner sees,
/// not deleted, and what every other user sees is as it was.
pub proof fn law_created_list_is_seen_by_owner_alone(t: Tables, row: ListRow, other: Id)
    requires
        t.insert_list(row).1 is Ok,
        other != row.created_by,
    ensures
        t.insert_list(row).0.visible_lists(row.created_by) == t.visible_lists(
            row.created_by,
        ).push(ListRow { deleted_at: None, ..row }),
        t.insert_list(row).0.visible_lists(other) == t.visible_lists(other),
{
    let stored = ListRow { deleted_at: None, ..row };
    lemma_filter_push(t.lists, stored, seen_by(row.created_by));
    lemma_filter_push(t.lists, stored, seen_by(other));
}

/// A task that was just created is the last of the tasks of its list, not
/// completed, and the tasks of every other list are as they were.
pub proof fn law_created_task_is_in_its_list_alone(t: Tables, row: TaskRow, other: Id)
    requires
        t.insert_task(row).1 is Ok,
        other != row.list_id,
    ensures
        t.insert_task(row).0.tasks_of(row.list_id) == t.tasks_of(row.list_id).push(
            TaskRow { completed_at: None, completed_by: None, ..row },
        ),
        t.insert_task(row).0.tasks_of(other) == t.tasks_of(other),
{
    let stored = TaskRow { completed_at: None, completed_by: None, ..row };
    lemma_filter_push(t.tasks, stored, in_list(row.list_id));
    lemma_filter_push(t.tasks, stored, in_list(other));
}

/// A list that is marked deleted is never among the lists that anyone
/// sees, while its row stays in the table.
pub proof fn law_deleted_list_is_hidden(t: Tables, i: int, owner: Id)
    requires
        0 <= i < t.lists.len(),
        t.lists[i].deleted_at is Some,
    ensures
        !t.visible_lists(owner).contains(t.lists[i]),
        t.has_list(t.lists[i].id),
{
    lemma_filter_members(t.lists, seen_by(owner));
    if t.visible_lists(owner).contains(t.lists[i]) {
        let k = choose|k: int|
            0 <= k < t.visible_lists(owner).len() && t.visible_lists(owner)[k] == t.lists[i];
        assert(seen_by(owner)(t.visible_lists(owner)[k]));
    }
}

/// After its owner has deleted a list, no list with its identifier is among
/// those the owner sees, and the table holds as many rows as before, one of
/// them still with that identifier if one had it.
pub proof fn law_owner_delete_hides_list(t: Tables, id: Id, owner: Id, at: Timestamp)
    ensures
        forall|k: int|
            0 <= k < t.delete_list(id, owner, at).visible_lists(owner).len() ==> (
            #[trigger] t.delete_list(id, owner, at).visible_lists(owner)[k]).id != id,
        t.delete_list(id, owner, at).lists.len() == t.lists.len(),
        t.delete_list(id, owner, at).has_list(id) == t.has_list(id),
{
    let after = t.delete_list(id, owner, at);
    let seen = after.visible_lists(owner);
    lemma_filter_members(after.lists, seen_by(owner));
    assert forall|k: int| 0 <= k < seen.len() implies (#[trigger] seen[k]).id != id by {
        let j = choose|j: int| 0 <= j < after.lists.len() && after.lists[j] == seen[k];
        assert(after.lists[j] == list_deleted(id, owner, at)(t.lists[j]));
        assert(seen_by(owner)(seen[k]));
    }
    if t.has_list(id) {
        let j = choose|j: int| 0 <= j < t.lists.len() && (#[trigger] t.lists[j]).id == id;
        assert(after.lists[j].id == id);
    }
    if after.has_list(id) {
        let j = choose|j: int| 0 <= j < after.lists.len() && (#[trigger] after.lists[j]).id == id;
        assert(t.lists[j].id == id);
    }
}

/// A delete on behalf of one user leaves what every other user sees as it
/// was: a list can be deleted by its owner alone.
pub proof fn law_foreign_delete_changes_nothing(
    t: Tables,
    id: Id,
    intruder: Id,
    owner: Id,
    at: Timestamp,
)
    requires
        intruder != owner,
    ensures
        t.delete_list(id, intruder, at).visible_lists(owner) == t.visible_lists(owner),
        !t.sees_list(id, intruder) ==> t.delete_list(id, intruder, at) == t,
{
    lemma_filter_untouched(t.lists, list_deleted(id, intruder, at), seen_by(owner));
    if !t.sees_list(id, intruder) {
        assert forall|j: int| 0 <= j < t.lists.len() implies list_deleted(id, intruder, at)(
            #[trigger] t.lists[j],
        ) == t.lists[j] by {
            if t.lists[j].id == id && t.lists[j].visible_to(intruder) {
                assert(t.sees_list(id, intruder));
            }
        }
        assert(t.delete_list(id, intruder, at).lists =~= t.lists);
    }
}

/// Where every completer that a task row records has a user row, every task
/// that is handed out for a list has its completion instant and the name of
/// its completer both set or both unset.
pub proof fn law_handed_out_tasks_are_paired(t: Tables, list_id: Id, k: int)
    requires
        t.valid(),
        forall|i: int|
            0 <= i < t.tasks.len() && (#[trigger] t.tasks[i]).completed_by is Some ==> t.has_user(
                t.tasks[i].completed_by->0,
            ),
        0 <= k < t.list_tasks(list_id).len(),
    ensures
        t.list_tasks(list_id)[k].completed_at is Some <==> t.list_tasks(list_id)[k].completed_by
            is Some,
{
    let rows = t.tasks_of(list_id);
    let row = rows[k];
    lemma_filter_members(t.tasks, in_list(list_id));
    let i = choose|i: int| 0 <= i < t.tasks.len() && t.tasks[i] == row;
    assert(t.tasks[i].completion_paired());
    assert(t.list_tasks(list_id)[k] == t.named()(row));
    if row.completed_by is Some {
        let id = row.completed_by->0;
        assert(t.has_user(id));
        let j = choose|j: int| 0 <= j < t.users.len() && (#[trigger] t.users[j]).id == id;
        assert(is_user(id)(t.users[j]));
        lemma_first_match_none(t.users, is_user(id));
    }
}

/// Completing a task records the instant and the completer together, for
/// every task with the identifier and whoever the completer is.
pub proof fn law_complete_sets_both(t: Tables, id: Id, by: Id, at: Timestamp, i: int)
    requires
        0 <= i < t.tasks.len(),
        t.tasks[i].id == id,
    ensures
        t.complete_task(id, by, at).tasks[i].completed_at == Some(at),
        t.complete_task(id, by, at).tasks[i].completed_by == Some(by),
{
}

/// Completing a task and then reopening it leaves it without a completion
/// instant and without a completer, and the store as reopening alone would
/// have left it.
pub proof fn law_uncomplete_clears_both(t: Tables, id: Id, by: Id, at: Timestamp, i: int)
    requires
        0 <= i < t.tasks.len(),
        t.tasks[i].id == id,
    ensures
        t.complete_task(id, by, at).uncomplete_task(id).tasks[i].completed_at is None,
        t.complete_task(id, by, at).uncomplete_task(id).tasks[i].completed_by is None,
        t.complete_task(id, by, at).uncomplete_task(id) == t.uncomplete_task(id),
{
    assert(t.complete_task(id, by, at).uncomplete_task(id).tasks =~= t.uncomplete_task(id).tasks);
}

} // verus!
