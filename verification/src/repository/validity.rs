//! Every statement leaves the rules of the schema in force.

use vstd::prelude::*;
use crate::model::db::{ListRow, TaskRow, UserRow};
use crate::model::ident::Id;
use crate::model::time::Timestamp;
use crate::repository::tables::{lemma_first_match_none, holds_username, Tables};

verus! {

/// Inserting a user keeps the store valid, whether the row is taken or
/// refused.
pub proof fn lemma_insert_user_valid(t: Tables, row: UserRow)
    requires
        t.valid(),
    ensures
        t.insert_user(row).0.valid(),
{
    let after = t.insert_user(row).0;
    if after != t {
        lemma_first_match_none(t.users, holds_username(row.username));
        assert(after.users.len() == t.users.len() + 1);
        assert(forall|i: int| 0 <= i < t.users.len() ==> after.users[i] == t.users[i]);
    }
}

/// Deleting a user keeps the store valid.
pub proof fn lemma_delete_user_valid(t: Tables, id: Id, at: Timestamp)
    requires
        t.valid(),
    ensures
        t.delete_user(id, at).valid(),
{
    let after = t.delete_user(id, at);
    assert(forall|i: int|
        0 <= i < t.users.len() ==> (#[trigger] after.users[i]).id == t.users[i].id
            && after.users[i].username == t.users[i].username && (after.users[i].active()
            ==> t.users[i].active()));
}

/// Inserting a list keeps the store valid, whether the row is taken or
/// refused.
pub proof fn lemma_insert_list_valid(t: Tables, row: ListRow)
    requires
        t.valid(),
    ensures
        t.insert_list(row).0.valid(),
{
    let after = t.insert_list(row).0;
    if after != t {
        assert(after.lists.len() == t.lists.len() + 1);
        assert(forall|i: int| 0 <= i < t.lists.len() ==> after.lists[i] == t.lists[i]);
    }
}

/// Deleting a list keeps the store valid.
pub proof fn lemma_delete_list_valid(t: Tables, id: Id, owner: Id, at: Timestamp)
    requires
        t.valid(),
    ensures
        t.delete_list(id, owner, at).valid(),
{
    let after = t.delete_list(id, owner, at);
    assert(forall|i: int|
        0 <= i < t.lists.len() ==> (#[trigger] after.lists[i]).id == t.lists[i].id
            && after.lists[i].title == t.lists[i].title);
}

/// Inserting a task keeps the store valid, whether the row is taken or
/// refused.
pub proof fn lemma_insert_task_valid(t: Tables, row: TaskRow)
    requires
        t.valid(),
    ensures
        t.insert_task(row).0.valid(),
{
    let after = t.insert_task(row).0;
    if after != t {
        assert(after.tasks.len() == t.tasks.len() + 1);
        assert(forall|i: int| 0 <= i < t.tasks.len() ==> after.tasks[i] == t.tasks[i]);
    }
}

/// Completing a task keeps the store valid: in particular the completion
/// instant and the completer stay paired in every row.
pub proof fn lemma_complete_task_valid(t: Tables, id: Id, by: Id, at: Timestamp)
    requires
        t.valid(),
    ensures
        t.complete_task(id, by, at).valid(),
{
    let after = t.complete_task(id, by, at);
    assert(forall|i: int|
        0 <= i < t.tasks.len() ==> (#[trigger] after.tasks[i]).id == t.tasks[i].id
            && after.tasks[i].title == t.tasks[i].title && after.tasks[i].completion_paired());
}

/// Reopening a task keeps the store valid: in particular the completion
/// instant and the completer stay paired in every row.
pub proof fn lemma_uncomplete_task_valid(t: Tables, id: Id)
    requires
        t.valid(),
    ensures
        t.uncomplete_task(id).valid(),
{
    let after = t.uncomplete_task(id);
    assert(forall|i: int|
        0 <= i < t.tasks.len() ==> (#[trigger] after.tasks[i]).id == t.tasks[i].id
            && after.tasks[i].title == t.tasks[i].title && after.tasks[i].completion_paired());
}

/// Toggling a task keeps the store valid: in particular the completion
/// instant and the completer stay paired in every row.
pub proof fn lemma_toggle_task_valid(t: Tables, id: Id, by: Id, at: Timestamp)
    requires
        t.valid(),
    ensures
        t.toggle_task(id, by, at).valid(),
{
    let after = t.toggle_task(id, by, at);
    assert(forall|i: int|
        0 <= i < t.tasks.len() ==> (#[trigger] after.tasks[i]).id == t.tasks[i].id
            && after.tasks[i].title == t.tasks[i].title && after.tasks[i].completion_paired());
}

} // verus!
