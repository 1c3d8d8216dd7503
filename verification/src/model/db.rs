//! The rows of the three tables, and the records of sharing and of sessions.

use vstd::prelude::*;
use crate::model::ident::Id;
use crate::model::time::Timestamp;

verus! {

/// A row of the user table.
#[derive(Debug, PartialEq, Eq)]
pub struct User {
    pub id: Id,
    pub username: String,
    pub password_hash: String,
    pub deleted_at: Option<Timestamp>,
}

/// What a [`User`] row holds.
pub ghost struct UserRow {
    pub id: Id,
    pub username: Seq<char>,
    pub password_hash: Seq<char>,
    pub deleted_at: Option<Timestamp>,
}

impl UserRow {
    /// A user that has not been deleted.
    pub open spec fn active(self) -> bool {
        self.deleted_at is None
    }
}

impl View for User {
    type V = UserRow;

    open spec fn view(&self) -> UserRow {
        UserRow {
            id: self.id,
            username: self.username@,
            password_hash: self.password_hash@,
            deleted_at: self.deleted_at,
        }
    }
}

impl Clone for User {
    fn clone(&self) -> (r: Self)
        ensures
            r@ == self@,
    {
        User {
            id: self.id,
            username: self.username.clone(),
            password_hash: self.password_hash.clone(),
            deleted_at: self.deleted_at,
        }
    }
}

/// A row of the list table.
#[derive(Debug, PartialEq, Eq)]
pub struct List {
    pub id: Id,
    pub title: String,
    pub created_at: Timestamp,
    pub created_by: Id,
    pub deleted_at: Option<Timestamp>,
}

/// What a [`List`] row holds.
pub ghost struct ListRow {
    pub id: Id,
    pub title: Seq<char>,
    pub created_at: Timestamp,
    pub created_by: Id,
    pub deleted_at: Option<Timestamp>,
}

impl ListRow {
    /// A list that `owner` can see: it is theirs and has not been deleted.
    pub open spec fn visible_to(self, owner: Id) -> bool {
        self.deleted_at is None && self.created_by == owner
    }
}

impl View for List {
    type V = ListRow;

    open spec fn view(&self) -> ListRow {
        ListRow {
            id: self.id,
            title: self.title@,
            created_at: self.created_at,
            created_by: self.created_by,
            deleted_at: self.deleted_at,
        }
    }
}

impl Clone for List {
    fn clone(&self) -> (r: Self)
        ensures
            r@ == self@,
    {
        List {
            id: self.id,
            title: self.title.clone(),
            created_at: self.created_at,
            created_by: self.created_by,
            deleted_at: self.deleted_at,
        }
    }
}

/// A grant of one list to one user.
#[derive(Clone, Copy, Debug, PartialEq, Eq, Structural)]
pub struct ListUser {
    pub list_id: Id,
    pub user_id: Id,
}

/// A row of the task table.
#[derive(Debug, PartialEq, Eq)]
pub struct Task {
    pub id: Id,
    pub list_id: Id,
    pub title: String,
    pub due_date: Timestamp,
    pub created_at: Timestamp,
    pub created_by: Id,
    pub completed_at: Option<Timestamp>,
    pub completed_by: Option<Id>,
}

/// What a [`Task`] row holds.
pub ghost struct TaskRow {
    pub id: Id,
    pub list_id: Id,
    pub title: Seq<char>,
    pub due_date: Timestamp,
    pub created_at: Timestamp,
    pub created_by: Id,
    pub completed_at: Option<Timestamp>,
    pub completed_by: Option<Id>,
}

impl TaskRow {
    /// The instant of completion and the completer are recorded together or
    /// not at all.
    pub open spec fn completion_paired(self) -> bool {
        self.completed_at is Some <==> self.completed_by is Some
    }
}

impl View for Task {
    type V = TaskRow;

    open spec fn view(&self) -> TaskRow {
        TaskRow {
            id: self.id,
            list_id: self.list_id,
            title: self.title@,
            due_date: self.due_date,
            created_at: self.created_at,
            created_by: self.created_by,
            completed_at: self.completed_at,
            completed_by: self.completed_by,
        }
    }
}

impl Clone for Task {
    fn clone(&self) -> (r: Self)
        ensures
            r@ == self@,
    {
        Task {
            id: self.id,
            list_id: self.list_id,
            title: self.title.clone(),
            due_date: self.due_date,
            created_at: self.created_at,
            created_by: self.created_by,
            completed_at: self.completed_at,
            completed_by: self.completed_by,
        }
    }
}

/// The binding of a session handle to the user who signed in with it.
///
/// `expires_at` is `None` for a session that lasts until it is destroyed.
#[derive(Clone, Copy, Debug, PartialEq, Eq, Structural)]
pub struct Session {
    pub id: Id,
    pub user_id: Id,
    pub created_at: Timestamp,
    pub expires_at: Option<Timestamp>,
}

} // verus!
