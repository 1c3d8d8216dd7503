//! A list as the service hands it around.

use vstd::prelude::*;
use crate::model::db;
use crate::model::db::ListRow;
use crate::model::ident::{random_id, Id};
use crate::model::time::{now, Timestamp};

verus! {

/// A list of tasks, owned by the user who created it.
#[derive(Debug, PartialEq, Eq)]
pub struct List {
    pub id: Id,
    pub title: String,
    pub created_at: Timestamp,
    pub created_by: Id,
    pub deleted_at: Option<Timestamp>,
}

impl View for List {
    type V = ListRow;

    open spec fn view(&self) -> ListRow {
        ListRow {
            id: self.id,
            title: self.title@,
            created_at: self.created_at,
            created_by: self.created_by,
            deleted_at: self.deleted_at,
        }
    }
}

impl Clone for List {
    fn clone(&self) -> (r: Self)
        ensures
            r@ == self@,
    {
        List {
            id: self.id,
            title: self.title.clone(),
            created_at: self.created_at,
            created_by: self.created_by,
            deleted_at: self.deleted_at,
        }
    }
}

/// What a vector of lists holds.
pub open spec fn list_views(v: Seq<List>) -> Seq<ListRow> {
    v.map_values(|l: List| l@)
}

/// The list that `user_id` creates with `title`, once an identifier and an
/// instant of creation are chosen.
pub open spec fn created_list(id: Id, title: Seq<char>, created_at: Timestamp, user_id: Id)
    -> ListRow {
    ListRow { id, title, created_at, created_by: user_id, deleted_at: None }
}

impl List {
    /// A new list of `user_id`, not deleted, with a random identifier and
    /// the current instant as its creation.
    pub fn new(title: String, user_id: Id) -> (r: List)
        ensures
            r@ == created_list(r@.id, title@, r@.created_at, user_id),
    {
        List { id: random_id(), title, created_at: now(), created_by: user_id, deleted_at: None }
    }

    /// The list that a row stores.
    pub fn from_row(row: &db::List) -> (r: List)
        ensures
            r@ == row@,
    {
        List {
            id: row.id,
            title: row.title.clone(),
            created_at: row.created_at,
            created_by: row.created_by,
            deleted_at: row.deleted_at,
        }
    }

    /// The row that stores this list.
    pub fn to_row(&self) -> (r: db::List)
        ensures
            r@ == self@,
    {
        db::List {
            id: self.id,
            title: self.title.clone(),
            created_at: self.created_at,
            created_by: self.created_by,
            deleted_at: self.deleted_at,
        }
    }
}

} // verus!
