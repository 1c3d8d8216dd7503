//! The store: the three tables held in memory, with one statement per method.

use vstd::prelude::*;
use crate::model::db;
use crate::model::db::{ListRow, TaskRow, UserRow};
use crate::model::ident::Id;
use crate::model::time::Timestamp;
use crate::repository::error::{Error, Fault};
use crate::repository::tables::{
    holds_username, in_list, is_list, is_live_list, is_task, is_user, lemma_filter_step,
    lemma_first_match_at, lemma_first_match_none, list_deleted, seen_by, task_completed,
    task_reopened, task_toggled, user_deleted, Tables,
};
use crate::repository::validity::{
    lemma_complete_task_valid, lemma_delete_list_valid, lemma_delete_user_valid,
    lemma_insert_list_valid, lemma_insert_task_valid, lemma_insert_user_valid,
    lemma_toggle_task_valid, lemma_uncomplete_task_valid,
};

verus! {

/// What a vector of user rows holds.
pub open spec fn user_rows(v: Seq<db::User>) -> Seq<UserRow> {
    v.map_values(|u: db::User| u@)
}

/// What a vector of list rows holds.
pub open spec fn list_rows(v: Seq<db::List>) -> Seq<ListRow> {
    v.map_values(|l: db::List| l@)
}

/// What a vector of task rows holds.
pub open spec fn task_rows(v: Seq<db::Task>) -> Seq<TaskRow> {
    v.map_values(|t: db::Task| t@)
}

/// The tables of users, lists and tasks.
pub struct Store {
    users: Vec<db::User>,
    lists: Vec<db::List>,
    tasks: Vec<db::Task>,
}

impl View for Store {
    type V = Tables;

    closed spec fn view(&self) -> Tables {
        Tables {
            users: user_rows(self.users@),
            lists: list_rows(self.lists@),
            tasks: task_rows(self.tasks@),
        }
    }
}

impl Store {
    /// The store obeys the rules of the schema.
    pub open spec fn wf(&self) -> bool {
        self@.valid()
    }

    /// A store without rows.
    pub fn new() -> (s: Store)
        ensures
            s.wf(),
            s@ == Tables::empty(),
    {
        let s = Store { users: Vec::new(), lists: Vec::new(), tasks: Vec::new() };
        assert(s@.users =~= Seq::empty());
        assert(s@.lists =~= Seq::empty());
        assert(s@.tasks =~= Seq::empty());
        s
    }

    /// Whether some user row, deleted or not, has the identifier.
    pub fn contains_user(&self, id: Id) -> (r: bool)
        ensures
            r == self@.has_user(id),
    {
        let mut i: usize = 0;
        while i < self.users.len()
            invariant
                i <= self.users.len(),
                forall|j: int| 0 <= j < i ==> (#[trigger] self@.users[j]).id != id,
            decreases self.users.len() - i,
        {
            if self.users[i].id == id {
                assert(self@.users[i as int].id == id);
                return true;
            }
            i += 1;
        }
        false
    }

    /// The user who holds `username` and has not been deleted.
    pub fn find_active_user(&self, username: &str) -> (r: Option<db::User>)
        ensures
            match r {
                Some(u) => self@.active_user(username@) == Some(u@),
                None => self@.active_user(username@) is None,
            },
    {
        let wanted = username.to_owned();
        let mut i: usize = 0;
        while i < self.users.len()
            invariant
                i <= self.users.len(),
                wanted@ == username@,
                forall|j: int|
                    0 <= j < i ==> !holds_username(username@)(#[trigger] self@.users[j]),
            decreases self.users.len() - i,
        {
            let row = &self.users[i];
            if row.deleted_at.is_none() && row.username == wanted {
                proof {
                    lemma_first_match_at(self@.users, holds_username(username@), i as int);
                }
                return Some(row.clone());
            }
            i += 1;
        }
        proof {
            lemma_first_match_none(self@.users, holds_username(username@));
        }
        None
    }

    /// Inserts a user row, not deleted whatever `row.deleted_at` holds.
    ///
    /// Refused with `UsernameTaken` when a user who has not been deleted
    /// holds the username, and with a duplicate-key fault when the
    /// identifier is taken; the store is then unchanged.
    pub fn insert_user(&mut self, row: db::User) -> (r: Result<(), Error>)
        ensures
            old(self).wf() ==> final(self).wf(),
            (final(self)@, r) == old(self)@.insert_user(row@),
    {
        proof {
            if self.wf() {
                lemma_insert_user_valid(self@, row@);
            }
        }
        if self.find_active_user(row.username.as_str()).is_some() {
            return Err(Error::UsernameTaken);
        }
        if self.contains_user(row.id) {
            return Err(Error::StorageFault(Fault::DuplicateKey));
        }
        let stored = db::User {
            id: row.id,
            username: row.username,
            password_hash: row.password_hash,
            deleted_at: None,
        };
        self.users.push(stored);
        assert(self@.users =~= old(self)@.users.push(UserRow { deleted_at: None, ..row@ }));
        Ok(())
    }

    /// Marks the user with the identifier as deleted at `at`, unless the row
    /// is already marked; a mark, once set, is never changed or removed.
    pub fn delete_user(&mut self, id: Id, at: Timestamp)
        ensures
            old(self).wf() ==> final(self).wf(),
            final(self)@ == old(self)@.delete_user(id, at),
    {
        proof {
            if self.wf() {
                lemma_delete_user_valid(self@, id, at);
            }
        }
        let mut i: usize = 0;
        while i < self.users.len()
            invariant
                i <= self.users.len(),
                self.users.len() == old(self).users.len(),
                self@.lists == old(self)@.lists,
                self@.tasks == old(self)@.tasks,
                forall|j: int|
                    0 <= j < i ==> #[trigger] self@.users[j] == user_deleted(id, at)(
                        old(self)@.users[j],
                    ),
                forall|j: int|
                    i <= j < self.users.len() ==> #[trigger] self@.users[j] == old(
                        self,
                    )@.users[j],
            decreases self.users.len() - i,
        {
            let ghost before = self@;
            if self.users[i].id == id && self.users[i].deleted_at.is_none() {
                self.users[i].deleted_at = Some(at);
            }
            assert(self@.users.len() == before.users.len());
            assert(self@.lists == before.lists);
            assert(self@.tasks == before.tasks);
            assert(forall|j: int|
                0 <= j < self.users.len() && j != i ==> #[trigger] self@.users[j]
                    == before.users[j]);
            assert(self@.users[i as int] == user_deleted(id, at)(before.users[i as int]));
            i += 1;
        }
        assert(self@.users =~= old(self)@.users.map_values(user_deleted(id, at)));
    }

    /// The username of the user with the identifier, deleted or not.
    pub fn username_of(&self, id: Id) -> (r: Option<String>)
        ensures
            match r {
                Some(name) => self@.username_of(id) == Some(name@),
                None => self@.username_of(id) is None,
            },
    {
        match self.find_user(id) {
            Some(row) => Some(row.username),
            None => None,
        }
    }

    /// Whether some list row, deleted or not, has the identifier.
    pub fn contains_list(&self, id: Id) -> (r: bool)
        ensures
            r == self@.has_list(id),
    {
        let mut i: usize = 0;
        while i < self.lists.len()
            invariant
                i <= self.lists.len(),
                forall|j: int| 0 <= j < i ==> (#[trigger] self@.lists[j]).id != id,
            decreases self.lists.len() - i,
        {
            if self.lists[i].id == id {
                assert(self@.lists[i as int].id == id);
                return true;
            }
            i += 1;
        }
        false
    }

    /// Inserts a list row, not deleted whatever `row.deleted_at` holds.
    ///
    /// Refused with an empty-title fault when the title is empty, and with
    /// a duplicate-key fault when the identifier is taken; the store is
    /// then unchanged.
    pub fn insert_list(&mut self, row: db::List) -> (r: Result<(), Error>)
        ensures
            old(self).wf() ==> final(self).wf(),
            (final(self)@, r) == old(self)@.insert_list(row@),
    {
        proof {
            if self.wf() {
                lemma_insert_list_valid(self@, row@);
            }
        }
        if row.title.as_str().is_empty() {
            return Err(Error::StorageFault(Fault::EmptyTitle));
        }
        if self.contains_list(row.id) {
            return Err(Error::StorageFault(Fault::DuplicateKey));
        }
        let stored = db::List {
            id: row.id,
            title: row.title,
            created_at: row.created_at,
            created_by: row.created_by,
            deleted_at: None,
        };
        self.lists.push(stored);
        assert(self@.lists =~= old(self)@.lists.push(ListRow { deleted_at: None, ..row@ }));
        Ok(())
    }

    /// The lists that `owner` created and that have not been deleted, in the
    /// order of their insertion.
    pub fn visible_lists(&self, owner: Id) -> (r: Vec<db::List>)
        ensures
            list_rows(r@) == self@.visible_lists(owner),
    {
        let mut out: Vec<db::List> = Vec::new();
        let mut i: usize = 0;
        proof {
            assert(list_rows(out@) =~= Seq::empty());
            assert(self@.lists.take(0) =~= Seq::empty());
            assert(self@.lists.take(0).filter(seen_by(owner)) =~= Seq::empty()) by {
                reveal(Seq::filter);
            }
        }
        while i < self.lists.len()
            invariant
                i <= self.lists.len(),
                list_rows(out@) == self@.lists.take(i as int).filter(seen_by(owner)),
            decreases self.lists.len() - i,
        {
            proof {
                lemma_filter_step(self@.lists, seen_by(owner), i as int);
            }
            let row = &self.lists[i];
            if row.deleted_at.is_none() && row.created_by == owner {
                let ghost before = out@;
                out.push(row.clone());
                assert(list_rows(out@) =~= list_rows(before).push(row@));
            }
            i += 1;
        }
        assert(self@.lists.take(self.lists.len() as int) =~= self@.lists);
        out
    }

    /// The list with the identifier, unless it has been deleted.
    pub fn find_live_list(&self, id: Id) -> (r: Option<db::List>)
        ensures
            match r {
                Some(l) => self@.live_list(id) == Some(l@),
                None => self@.live_list(id) is None,
            },
    {
        let mut i: usize = 0;
        while i < self.lists.len()
            invariant
                i <= self.lists.len(),
                forall|j: int| 0 <= j < i ==> !is_live_list(id)(#[trigger] self@.lists[j]),
            decreases self.lists.len() - i,
        {
            let row = &self.lists[i];
            if row.id == id && row.deleted_at.is_none() {
                proof {
                    lemma_first_match_at(self@.lists, is_live_list(id), i as int);
                }
                return Some(row.clone());
            }
            i += 1;
        }
        proof {
            lemma_first_match_none(self@.lists, is_live_list(id));
        }
        None
    }

    /// Marks the list with the identifier as deleted at `at`, on behalf of
    /// `owner`: only a row that `owner` created and that carries no mark is
    /// changed. Returns whether a row was changed.
    pub fn delete_list(&mut self, id: Id, owner: Id, at: Timestamp) -> (changed: bool)
        ensures
            old(self).wf() ==> final(self).wf(),
            final(self)@ == old(self)@.delete_list(id, owner, at),
            changed == old(self)@.sees_list(id, owner),
    {
        proof {
            if self.wf() {
                lemma_delete_list_valid(self@, id, owner, at);
            }
        }
        let mut changed = false;
        let mut i: usize = 0;
        while i < self.lists.len()
            invariant
                i <= self.lists.len(),
                self.lists.len() == old(self).lists.len(),
                changed == exists|j: int|
                    0 <= j < i && (#[trigger] old(self)@.lists[j]).id == id && old(
                        self,
                    )@.lists[j].visible_to(owner),
                self@.users == old(self)@.users,
                self@.tasks == old(self)@.tasks,
                forall|j: int|
                    0 <= j < i ==> #[trigger] self@.lists[j] == list_deleted(id, owner, at)(
                        old(self)@.lists[j],
                    ),
                forall|j: int|
                    i <= j < self.lists.len() ==> #[trigger] self@.lists[j] == old(
                        self,
                    )@.lists[j],
            decreases self.lists.len() - i,
        {
            let ghost before = self@;
            if self.lists[i].id == id && self.lists[i].deleted_at.is_none()
                && self.lists[i].created_by == owner {
                self.lists[i].deleted_at = Some(at);
                changed = true;
            }
            assert(self@.lists.len() == before.lists.len());
            assert(self@.users == before.users);
            assert(self@.tasks == before.tasks);
            assert(forall|j: int|
                0 <= j < self.lists.len() && j != i ==> #[trigger] self@.lists[j]
                    == before.lists[j]);
            assert(self@.lists[i as int] == list_deleted(id, owner, at)(before.lists[i as int]));
            i += 1;
        }
        assert(self@.lists =~= old(self)@.lists.map_values(list_deleted(id, owner, at)));
        changed
    }
    /// Whether some task row has the identifier.
    pub fn contains_task(&self, id: Id) -> (r: bool)
        ensures
            r == self@.has_task(id),
    {
        let mut i: usize = 0;
        while i < self.tasks.len()
            invariant
                i <= self.tasks.len(),
                forall|j: int| 0 <= j < i ==> (#[trigger] self@.tasks[j]).id != id,
            decreases self.tasks.len() - i,
        {
            if self.tasks[i].id == id {
                assert(self@.tasks[i as int].id == id);
                return true;
            }
            i += 1;
        }
        false
    }

    /// Inserts a task row, not completed whatever `row` holds of a
    /// completion.
    ///
    /// Refused with an empty-title fault when the title is empty, and with
    /// a duplicate-key fault when the identifier is taken; the store is
    /// then unchanged.
    pub fn insert_task(&mut self, row: db::Task) -> (r: Result<(), Error>)
        ensures
            old(self).wf() ==> final(self).wf(),
            (final(self)@, r) == old(self)@.insert_task(row@),
    {
        proof {
            if self.wf() {
                lemma_insert_task_valid(self@, row@);
            }
        }
        if row.title.as_str().is_empty() {
            return Err(Error::StorageFault(Fault::EmptyTitle));
        }
        if self.contains_task(row.id) {
            return Err(Error::StorageFault(Fault::DuplicateKey));
        }
        let stored = db::Task {
            id: row.id,
            list_id: row.list_id,
            title: row.title,
            due_date: row.due_date,
            created_at: row.created_at,
            created_by: row.created_by,
            completed_at: None,
            completed_by: None,
        };
        self.tasks.push(stored);
        assert(self@.tasks =~= old(self)@.tasks.push(
            TaskRow { completed_at: None, completed_by: None, ..row@ },
        ));
        Ok(())
    }

    /// The tasks of a list, completed or not, in the order of their
    /// insertion.
    pub fn tasks_of(&self, list_id: Id) -> (r: Vec<db::Task>)
        ensures
            task_rows(r@) == self@.tasks_of(list_id),
    {
        let mut out: Vec<db::Task> = Vec::new();
        let mut i: usize = 0;
        proof {
            assert(task_rows(out@) =~= Seq::empty());
            assert(self@.tasks.take(0) =~= Seq::empty());
            assert(self@.tasks.take(0).filter(in_list(list_id)) =~= Seq::empty()) by {
                reveal(Seq::filter);
            }
        }
        while i < self.tasks.len()
            invariant
                i <= self.tasks.len(),
                task_rows(out@) == self@.tasks.take(i as int).filter(in_list(list_id)),
            decreases self.tasks.len() - i,
        {
            proof {
                lemma_filter_step(self@.tasks, in_list(list_id), i as int);
            }
            let row = &self.tasks[i];
            if row.list_id == list_id {
                let ghost before = out@;
                out.push(row.clone());
                assert(task_rows(out@) =~= task_rows(before).push(row@));
            }
            i += 1;
        }
        assert(self@.tasks.take(self.tasks.len() as int) =~= self@.tasks);
        out
    }

    /// Records that `by` completed the task with the identifier at `at`,
    /// whatever the row recorded before. Returns whether a row has the
    /// identifier.
    pub fn complete_task(&mut self, id: Id, by: Id, at: Timestamp) -> (matched: bool)
        ensures
            old(self).wf() ==> final(self).wf(),
            final(self)@ == old(self)@.complete_task(id, by, at),
            matched == old(self)@.has_task(id),
    {
        proof {
            if self.wf() {
                lemma_complete_task_valid(self@, id, by, at);
            }
        }
        let mut matched = false;
        let mut i: usize = 0;
        while i < self.tasks.len()
            invariant
                i <= self.tasks.len(),
                self.tasks.len() == old(self).tasks.len(),
                matched == exists|j: int| 0 <= j < i && (#[trigger] old(self)@.tasks[j]).id == id,
                self@.users == old(self)@.users,
                self@.lists == old(self)@.lists,
                forall|j: int|
                    0 <= j < i ==> #[trigger] self@.tasks[j] == task_completed(id, by, at)(
                        old(self)@.tasks[j],
                    ),
                forall|j: int|
                    i <= j < self.tasks.len() ==> #[trigger] self@.tasks[j] == old(
                        self,
                    )@.tasks[j],
            decreases self.tasks.len() - i,
        {
            let ghost before = self@;
            if self.tasks[i].id == id {
                self.tasks[i].completed_at = Some(at);
                self.tasks[i].completed_by = Some(by);
                matched = true;
            }
            assert(self@.tasks.len() == before.tasks.len());
            assert(self@.users == before.users);
            assert(self@.lists == before.lists);
            assert(forall|j: int|
                0 <= j < self.tasks.len() && j != i ==> #[trigger] self@.tasks[j]
                    == before.tasks[j]);
            assert(self@.tasks[i as int] == task_completed(id, by, at)(before.tasks[i as int]));
            i += 1;
        }
        assert(self@.tasks =~= old(self)@.tasks.map_values(task_completed(id, by, at)));
        matched
    }

    /// Clears the completion instant and the completer of the task with the
    /// identifier. Returns whether a row has the identifier.
    pub fn uncomplete_task(&mut self, id: Id) -> (matched: bool)
        ensures
            old(self).wf() ==> final(self).wf(),
            final(self)@ == old(self)@.uncomplete_task(id),
            matched == old(self)@.has_task(id),
    {
        proof {
            if self.wf() {
                lemma_uncomplete_task_valid(self@, id);
            }
        }
        let mut matched = false;
        let mut i: usize = 0;
        while i < self.tasks.len()
            invariant
                i <= self.tasks.len(),
                self.tasks.len() == old(self).tasks.len(),
                matched == exists|j: int| 0 <= j < i && (#[trigger] old(self)@.tasks[j]).id == id,
                self@.users == old(self)@.users,
                self@.lists == old(self)@.lists,
                forall|j: int|
                    0 <= j < i ==> #[trigger] self@.tasks[j] == task_reopened(id)(
                        old(self)@.tasks[j],
                    ),
                forall|j: int|
                    i <= j < self.tasks.len() ==> #[trigger] self@.tasks[j] == old(
                        self,
                    )@.tasks[j],
            decreases self.tasks.len() - i,
        {
            let ghost before = self@;
            if self.tasks[i].id == id {
                self.tasks[i].completed_at = None;
                self.tasks[i].completed_by = None;
                matched = true;
            }
            assert(self@.tasks.len() == before.tasks.len());
            assert(self@.users == before.users);
            assert(self@.lists == before.lists);
            assert(forall|j: int|
                0 <= j < self.tasks.len() && j != i ==> #[trigger] self@.tasks[j]
                    == before.tasks[j]);
            assert(self@.tasks[i as int] == task_reopened(id)(before.tasks[i as int]));
            i += 1;
        }
        assert(self@.tasks =~= old(self)@.tasks.map_values(task_reopened(id)));
        matched
    }

    /// Completes the task with the identifier, by `by` at `at`, if it is open,
    /// and reopens it if it is completed. Returns whether a row has the
    /// identifier.
    pub fn toggle_task(&mut self, id: Id, by: Id, at: Timestamp) -> (matched: bool)
        ensures
            old(self).wf() ==> final(self).wf(),
            final(self)@ == old(self)@.toggle_task(id, by, at),
            matched == old(self)@.has_task(id),
    {
        proof {
            if self.wf() {
                lemma_toggle_task_valid(self@, id, by, at);
            }
        }
        let mut matched = false;
        let mut i: usize = 0;
        while i < self.tasks.len()
            invariant
                i <= self.tasks.len(),
                self.tasks.len() == old(self).tasks.len(),
                matched == exists|j: int| 0 <= j < i && (#[trigger] old(self)@.tasks[j]).id == id,
                self@.users == old(self)@.users,
                self@.lists == old(self)@.lists,
                forall|j: int|
                    0 <= j < i ==> #[trigger] self@.tasks[j] == task_toggled(id, by, at)(
                        old(self)@.tasks[j],
                    ),
                forall|j: int|
                    i <= j < self.tasks.len() ==> #[trigger] self@.tasks[j] == old(
                        self,
                    )@.tasks[j],
            decreases self.tasks.len() - i,
        {
            let ghost before = self@;
            if self.tasks[i].id == id {
                if self.tasks[i].completed_at.is_none() {
                    self.tasks[i].completed_at = Some(at);
                    self.tasks[i].completed_by = Some(by);
                } else {
                    self.tasks[i].completed_at = None;
                    self.tasks[i].completed_by = None;
                }
                matched = true;
            }
            assert(self@.tasks.len() == before.tasks.len());
            assert(self@.users == before.users);
            assert(self@.lists == before.lists);
            assert(forall|j: int|
                0 <= j < self.tasks.len() && j != i ==> #[trigger] self@.tasks[j]
                    == before.tasks[j]);
            assert(self@.tasks[i as int] == task_toggled(id, by, at)(before.tasks[i as int]));
            i += 1;
        }
        assert(self@.tasks =~= old(self)@.tasks.map_values(task_toggled(id, by, at)));
        matched
    }
    /// The user row with the identifier, deleted or not.
    pub fn find_user(&self, id: Id) -> (r: Option<db::User>)
        ensures
            match r {
                Some(row) => self@.user_row(id) == Some(row@),
                None => self@.user_row(id) is None,
            },
    {
        let mut i: usize = 0;
        while i < self.users.len()
            invariant
                i <= self.users.len(),
                forall|j: int| 0 <= j < i ==> !is_user(id)(#[trigger] self@.users[j]),
            decreases self.users.len() - i,
        {
            if self.users[i].id == id {
                proof {
                    lemma_first_match_at(self@.users, is_user(id), i as int);
                }
                return Some(self.users[i].clone());
            }
            i += 1;
        }
        proof {
            lemma_first_match_none(self@.users, is_user(id));
        }
        None
    }

    /// The list row with the identifier, deleted or not.
    pub fn find_list(&self, id: Id) -> (r: Option<db::List>)
        ensures
            match r {
                Some(row) => self@.list_row(id) == Some(row@),
                None => self@.list_row(id) is None,
            },
    {
        let mut i: usize = 0;
        while i < self.lists.len()
            invariant
                i <= self.lists.len(),
                forall|j: int| 0 <= j < i ==> !is_list(id)(#[trigger] self@.lists[j]),
            decreases self.lists.len() - i,
        {
            if self.lists[i].id == id {
                proof {
                    lemma_first_match_at(self@.lists, is_list(id), i as int);
                }
                return Some(self.lists[i].clone());
            }
            i += 1;
        }
        proof {
            lemma_first_match_none(self@.lists, is_list(id));
        }
        None
    }

    /// The task row with the identifier.
    pub fn find_task(&self, id: Id) -> (r: Option<db::Task>)
        ensures
            match r {
                Some(row) => self@.task_row(id) == Some(row@),
                None => self@.task_row(id) is None,
            },
    {
        let mut i: usize = 0;
        while i < self.tasks.len()
            invariant
                i <= self.tasks.len(),
                forall|j: int| 0 <= j < i ==> !is_task(id)(#[trigger] self@.tasks[j]),
            decreases self.tasks.len() - i,
        {
            if self.tasks[i].id == id {
                proof {
                    lemma_first_match_at(self@.tasks, is_task(id), i as int);
                }
                return Some(self.tasks[i].clone());
            }
            i += 1;
        }
        proof {
            lemma_first_match_none(self@.tasks, is_task(id));
        }
        None
    }
}

} // verus!
