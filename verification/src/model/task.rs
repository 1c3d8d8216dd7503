//! A task as the service hands it around.

use vstd::prelude::*;
use crate::model::db;
use crate::model::db::TaskRow;
use crate::model::ident::{random_id, Id};
use crate::model::time::{now, Timestamp};

verus! {

/// A task of a list. `completed_by` is the username of the completer.
#[derive(Debug, PartialEq, Eq)]
pub struct Task {
    pub id: Id,
    pub list_id: Id,
    pub title: String,
    pub due_date: Timestamp,
    pub created_at: Timestamp,
    pub created_by: Id,
    pub completed_at: Option<Timestamp>,
    pub completed_by: Option<String>,
}

/// What a [`Task`] holds.
pub ghost struct TaskView {
    pub id: Id,
    pub list_id: Id,
    pub title: Seq<char>,
    pub due_date: Timestamp,
    pub created_at: Timestamp,
    pub created_by: Id,
    pub completed_at: Option<Timestamp>,
    pub completed_by: Option<Seq<char>>,
}

impl TaskView {
    /// The row that stores the task when it is created: not completed.
    pub open spec fn row(self) -> TaskRow {
        TaskRow {
            id: self.id,
            list_id: self.list_id,
            title: self.title,
            due_date: self.due_date,
            created_at: self.created_at,
            created_by: self.created_by,
            completed_at: None,
            completed_by: None,
        }
    }

    /// The task that a row stores, with the completer's username in place of
    /// their identifier.
    pub open spec fn of_row(row: TaskRow, completed_by: Option<Seq<char>>) -> TaskView {
        TaskView {
            id: row.id,
            list_id: row.list_id,
            title: row.title,
            due_date: row.due_date,
            created_at: row.created_at,
            created_by: row.created_by,
            completed_at: row.completed_at,
            completed_by,
        }
    }
}

/// What an optional string holds.
pub open spec fn text_of_option(s: Option<String>) -> Option<Seq<char>> {
    match s {
        Some(s) => Some(s@),
        None => None,
    }
}

impl View for Task {
    type V = TaskView;

    open spec fn view(&self) -> TaskView {
        TaskView {
            id: self.id,
            list_id: self.list_id,
            title: self.title@,
            due_date: self.due_date,
            created_at: self.created_at,
            created_by: self.created_by,
            completed_at: self.completed_at,
            completed_by: text_of_option(self.completed_by),
        }
    }
}

impl Clone for Task {
    fn clone(&self) -> (r: Self)
        ensures
            r@ == self@,
    {
        let completed_by = match &self.completed_by {
            Some(name) => Some(name.clone()),
            None => None,
        };
        Task {
            id: self.id,
            list_id: self.list_id,
            title: self.title.clone(),
            due_date: self.due_date,
            created_at: self.created_at,
            created_by: self.created_by,
            completed_at: self.completed_at,
            completed_by,
        }
    }
}

/// What a vector of tasks holds.
pub open spec fn task_views(v: Seq<Task>) -> Seq<TaskView> {
    v.map_values(|t: Task| t@)
}

/// The task that `user_id` creates in a list, once an identifier and an
/// instant of creation are chosen.
pub open spec fn created_task(
    id: Id,
    title: Seq<char>,
    due_date: Timestamp,
    list_id: Id,
    created_at: Timestamp,
    user_id: Id,
) -> TaskView {
    TaskView {
        id,
        list_id,
        title,
        due_date,
        created_at,
        created_by: user_id,
        completed_at: None,
        completed_by: None,
    }
}

impl Task {
    /// A new task of `list_id`, created by `user_id` and not completed, with
    /// a random identifier and the current instant as its creation.
    pub fn new(title: String, due_date: Timestamp, list_id: Id, user_id: Id) -> (r: Task)
        ensures
            r@ == created_task(r@.id, title@, due_date, list_id, r@.created_at, user_id),
    {
        Task {
            id: random_id(),
            list_id,
            title,
            due_date,
            created_at: now(),
            created_by: user_id,
            completed_at: None,
            completed_by: None,
        }
    }

    /// The task that a row stores, with the completer's username in place of
    /// their identifier.
    pub fn from_row(row: &db::Task, completed_by: Option<String>) -> (r: Task)
        ensures
            r@ == TaskView::of_row(row@, text_of_option(completed_by)),
    {
        Task {
            id: row.id,
            list_id: row.list_id,
            title: row.title.clone(),
            due_date: row.due_date,
            created_at: row.created_at,
            created_by: row.created_by,
            completed_at: row.completed_at,
            completed_by,
        }
    }

    /// The row that stores the task when it is created: not completed.
    pub fn to_row(&self) -> (r: db::Task)
        ensures
            r@ == self@.row(),
    {
        db::Task {
            id: self.id,
            list_id: self.list_id,
            title: self.title.clone(),
            due_date: self.due_date,
            created_at: self.created_at,
            created_by: self.created_by,
            completed_at: None,
            completed_by: None,
        }
    }
}

} // verus!
