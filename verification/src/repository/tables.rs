//! The mathematical model of the store: three sequences of rows, the rules
//! that every reachable state obeys, and one function per statement that says
//! which state follows and what is reported.

use vstd::prelude::*;
use crate::model::db::{ListRow, TaskRow, UserRow};
use crate::model::ident::Id;
use crate::model::task::TaskView;
use crate::model::time::Timestamp;
use crate::repository::error::{Error, Fault};

verus! {

/// The first element of `s` that satisfies `p`, if there is one.
pub open spec fn first_match<T>(s: Seq<T>, p: spec_fn(T) -> bool) -> Option<T>
    decreases s.len(),
{
    if s.len() == 0 {
        None
    } else if p(s[0]) {
        Some(s[0])
    } else {
        first_match(s.drop_first(), p)
    }
}

/// An element found by [`first_match`] satisfies the predicate and stands at
/// an index before which nothing does.
pub proof fn lemma_first_match_some<T>(s: Seq<T>, p: spec_fn(T) -> bool)
    requires
        first_match(s, p) is Some,
    ensures
        p(first_match(s, p)->0),
        exists|i: int|
            0 <= i < s.len() && #[trigger] s[i] == first_match(s, p)->0 && forall|j: int|
                0 <= j < i ==> !p(#[trigger] s[j]),
    decreases s.len(),
{
    if !p(s[0]) {
        let rest = s.drop_first();
        lemma_first_match_some(rest, p);
        let k = choose|k: int|
            0 <= k < rest.len() && #[trigger] rest[k] == first_match(rest, p)->0 && forall|j: int|
                0 <= j < k ==> !p(#[trigger] rest[j]);
        assert(s[k + 1] == rest[k]);
        assert forall|j: int| 0 <= j < k + 1 implies !p(#[trigger] s[j]) by {
            if j > 0 {
                assert(s[j] == rest[j - 1]);
            }
        }
    } else {
        assert(s[0] == first_match(s, p)->0);
    }
}

/// [`first_match`] finds nothing exactly when no element satisfies the
/// predicate.
pub proof fn lemma_first_match_none<T>(s: Seq<T>, p: spec_fn(T) -> bool)
    ensures
        first_match(s, p) is None <==> forall|i: int| 0 <= i < s.len() ==> !p(#[trigger] s[i]),
    decreases s.len(),
{
    if s.len() > 0 {
        let rest = s.drop_first();
        lemma_first_match_none(rest, p);
        if first_match(s, p) is None {
            assert forall|i: int| 0 <= i < s.len() implies !p(#[trigger] s[i]) by {
                if i > 0 {
                    assert(s[i] == rest[i - 1]);
                }
            }
        } else if !p(s[0]) {
            lemma_first_match_some(rest, p);
            let k = choose|k: int| 0 <= k < rest.len() && p(#[trigger] rest[k]);
            assert(s[k + 1] == rest[k]);
        }
    }
}

/// The element at `i` is the one that [`first_match`] finds when it satisfies
/// the predicate and nothing before it does.
pub proof fn lemma_first_match_at<T>(s: Seq<T>, p: spec_fn(T) -> bool, i: int)
    requires
        0 <= i < s.len(),
        p(s[i]),
        forall|j: int| 0 <= j < i ==> !p(#[trigger] s[j]),
    ensures
        first_match(s, p) == Some(s[i]),
    decreases i,
{
    if i > 0 {
        let rest = s.drop_first();
        assert(rest[i - 1] == s[i]);
        assert forall|j: int| 0 <= j < i - 1 implies !p(#[trigger] rest[j]) by {
            assert(rest[j] == s[j + 1]);
        }
        lemma_first_match_at(rest, p, i - 1);
    }
}

/// Filtering one element more either appends that element or changes
/// nothing.
pub proof fn lemma_filter_step<T>(s: Seq<T>, p: spec_fn(T) -> bool, i: int)
    requires
        0 <= i < s.len(),
    ensures
        s.take(i + 1).filter(p) == if p(s[i]) {
            s.take(i).filter(p).push(s[i])
        } else {
            s.take(i).filter(p)
        },
        s.take(0).filter(p) == Seq::<T>::empty(),
        s.take(s.len() as int) == s,
{
    reveal(Seq::filter);
    assert(s.take(i + 1).drop_last() =~= s.take(i));
    assert(s.take(0).filter(p) =~= Seq::<T>::empty());
    assert(s.take(s.len() as int) =~= s);
}

/// Filtering a sequence with one element appended either appends that
/// element to what was kept or changes nothing.
pub proof fn lemma_filter_push<T>(s: Seq<T>, x: T, p: spec_fn(T) -> bool)
    ensures
        s.push(x).filter(p) == if p(x) {
            s.filter(p).push(x)
        } else {
            s.filter(p)
        },
{
    reveal(Seq::filter);
    assert(s.push(x).drop_last() =~= s);
}

/// What a filter keeps satisfies the predicate and comes from the sequence,
/// and every element that satisfies the predicate is kept.
pub proof fn lemma_filter_members<T>(s: Seq<T>, p: spec_fn(T) -> bool)
    ensures
        forall|i: int|
            0 <= i < s.filter(p).len() ==> p(#[trigger] s.filter(p)[i]) && s.contains(
                s.filter(p)[i],
            ),
        forall|i: int| 0 <= i < s.len() && p(s[i]) ==> s.filter(p).contains(#[trigger] s[i]),
    decreases s.len(),
{
    reveal(Seq::filter);
    if s.len() > 0 {
        let rest = s.drop_last();
        let kept = s.filter(p);
        lemma_filter_members(rest, p);
        assert forall|i: int| 0 <= i < kept.len() implies p(#[trigger] kept[i]) && s.contains(
            kept[i],
        ) by {
            if i < rest.filter(p).len() {
                assert(kept[i] == rest.filter(p)[i]);
                let j = choose|j: int| 0 <= j < rest.len() && rest[j] == rest.filter(p)[i];
                assert(s[j] == kept[i]);
            } else {
                assert(kept[i] == s[s.len() - 1]);
            }
        }
        assert forall|i: int| 0 <= i < s.len() && p(s[i]) implies kept.contains(
            #[trigger] s[i],
        ) by {
            if i < rest.len() {
                assert(rest[i] == s[i]);
                assert(rest.filter(p).contains(rest[i]));
                let j = choose|j: int| 0 <= j < rest.filter(p).len() && rest.filter(p)[j] == s[i];
                assert(kept[j] == s[i]);
            } else {
                assert(kept[kept.len() - 1] == s[i]);
            }
        }
    }
}

/// A filter keeps the same elements after a change that leaves alone every
/// element the filter keeps and makes no other element pass.
pub proof fn lemma_filter_untouched<T>(s: Seq<T>, f: spec_fn(T) -> T, p: spec_fn(T) -> bool)
    requires
        forall|i: int| 0 <= i < s.len() && p(#[trigger] s[i]) ==> f(s[i]) == s[i],
        forall|i: int| 0 <= i < s.len() && p(f(#[trigger] s[i])) ==> p(s[i]),
    ensures
        s.map_values(f).filter(p) == s.filter(p),
    decreases s.len(),
{
    reveal(Seq::filter);
    if s.len() > 0 {
        let rest = s.drop_last();
        assert(s.map_values(f).drop_last() =~= rest.map_values(f));
        assert forall|i: int| 0 <= i < rest.len() && p(#[trigger] rest[i]) implies f(rest[i])
            == rest[i] by {
            assert(rest[i] == s[i]);
        }
        assert forall|i: int| 0 <= i < rest.len() && p(f(#[trigger] rest[i])) implies p(
            rest[i],
        ) by {
            assert(rest[i] == s[i]);
        }
        lemma_filter_untouched(rest, f, p);
        assert(s.map_values(f).last() == f(s.last()));
        assert(s[s.len() - 1] == s.last());
    } else {
        assert(s.map_values(f) =~= s);
    }
}

/// The users who hold `username` and have not been deleted.
pub open spec fn holds_username(username: Seq<char>) -> spec_fn(UserRow) -> bool {
    |u: UserRow| u.active() && u.username == username
}

/// The users with the identifier.
pub open spec fn is_user(id: Id) -> spec_fn(UserRow) -> bool {
    |u: UserRow| u.id == id
}

/// The lists with the identifier.
pub open spec fn is_list(id: Id) -> spec_fn(ListRow) -> bool {
    |l: ListRow| l.id == id
}

/// The tasks with the identifier.
pub open spec fn is_task(id: Id) -> spec_fn(TaskRow) -> bool {
    |t: TaskRow| t.id == id
}

/// The lists that `owner` sees.
pub open spec fn seen_by(owner: Id) -> spec_fn(ListRow) -> bool {
    |l: ListRow| l.visible_to(owner)
}

/// The lists with the identifier that have not been deleted.
pub open spec fn is_live_list(id: Id) -> spec_fn(ListRow) -> bool {
    |l: ListRow| l.id == id && l.deleted_at is None
}

/// The tasks of a list.
pub open spec fn in_list(list_id: Id) -> spec_fn(TaskRow) -> bool {
    |t: TaskRow| t.list_id == list_id
}

/// What deleting user `id` at `at` makes of a user row.
pub open spec fn user_deleted(id: Id, at: Timestamp) -> spec_fn(UserRow) -> UserRow {
    |u: UserRow|
        if u.id == id && u.active() {
            UserRow { deleted_at: Some(at), ..u }
        } else {
            u
        }
}

/// What deleting list `id` at `at` on behalf of `owner` makes of a list row.
pub open spec fn list_deleted(id: Id, owner: Id, at: Timestamp) -> spec_fn(ListRow) -> ListRow {
    |l: ListRow|
        if l.id == id && l.visible_to(owner) {
            ListRow { deleted_at: Some(at), ..l }
        } else {
            l
        }
}

/// What completing task `id` by `by` at `at` makes of a task row.
pub open spec fn task_completed(id: Id, by: Id, at: Timestamp) -> spec_fn(TaskRow) -> TaskRow {
    |t: TaskRow|
        if t.id == id {
            TaskRow { completed_at: Some(at), completed_by: Some(by), ..t }
        } else {
            t
        }
}

/// What reopening task `id` makes of a task row.
pub open spec fn task_reopened(id: Id) -> spec_fn(TaskRow) -> TaskRow {
    |t: TaskRow|
        if t.id == id {
            TaskRow { completed_at: None, completed_by: None, ..t }
        } else {
            t
        }
}

/// What toggling task `id` by `by` at `at` makes of a task row.
pub open spec fn task_toggled(id: Id, by: Id, at: Timestamp) -> spec_fn(TaskRow) -> TaskRow {
    |t: TaskRow|
        if t.id == id && t.completed_at is None {
            TaskRow { completed_at: Some(at), completed_by: Some(by), ..t }
        } else if t.id == id {
            TaskRow { completed_at: None, completed_by: None, ..t }
        } else {
            t
        }
}

/// The contents of the store.
pub ghost struct Tables {
    pub users: Seq<UserRow>,
    pub lists: Seq<ListRow>,
    pub tasks: Seq<TaskRow>,
}

impl Tables {
    /// The store without any row.
    pub open spec fn empty() -> Tables {
        Tables { users: Seq::empty(), lists: Seq::empty(), tasks: Seq::empty() }
    }

    /// The rules of the schema: identifiers are keys, a username is held by at
    /// most one user who has not been deleted, titles are not empty, and a
    /// task records its completion instant together with its completer.
    pub open spec fn valid(self) -> bool {
        &&& forall|i: int, j: int|
            0 <= i < j < self.users.len() ==> (#[trigger] self.users[i]).id != (
            #[trigger] self.users[j]).id
        &&& forall|i: int, j: int|
            0 <= i < j < self.users.len() && (#[trigger] self.users[i]).active() && (
            #[trigger] self.users[j]).active() ==> self.users[i].username
                != self.users[j].username
        &&& forall|i: int, j: int|
            0 <= i < j < self.lists.len() ==> (#[trigger] self.lists[i]).id != (
            #[trigger] self.lists[j]).id
        &&& forall|i: int| 0 <= i < self.lists.len() ==> (#[trigger] self.lists[i]).title.len() > 0
        &&& forall|i: int, j: int|
            0 <= i < j < self.tasks.len() ==> (#[trigger] self.tasks[i]).id != (
            #[trigger] self.tasks[j]).id
        &&& forall|i: int| 0 <= i < self.tasks.len() ==> (#[trigger] self.tasks[i]).title.len() > 0
        &&& forall|i: int|
            0 <= i < self.tasks.len() ==> (#[trigger] self.tasks[i]).completion_paired()
    }

    /// Whether some user row, deleted or not, has the identifier.
    pub open spec fn has_user(self, id: Id) -> bool {
        exists|i: int| 0 <= i < self.users.len() && (#[trigger] self.users[i]).id == id
    }

    /// Whether some list row, deleted or not, has the identifier.
    pub open spec fn has_list(self, id: Id) -> bool {
        exists|i: int| 0 <= i < self.lists.len() && (#[trigger] self.lists[i]).id == id
    }

    /// Whether some task row has the identifier.
    pub open spec fn has_task(self, id: Id) -> bool {
        exists|i: int| 0 <= i < self.tasks.len() && (#[trigger] self.tasks[i]).id == id
    }

    /// The user row with the identifier, deleted or not.
    pub open spec fn user_row(self, id: Id) -> Option<UserRow> {
        first_match(self.users, is_user(id))
    }

    /// The list row with the identifier, deleted or not.
    pub open spec fn list_row(self, id: Id) -> Option<ListRow> {
        first_match(self.lists, is_list(id))
    }

    /// The task row with the identifier.
    pub open spec fn task_row(self, id: Id) -> Option<TaskRow> {
        first_match(self.tasks, is_task(id))
    }

    /// The user who holds `username` and has not been deleted.
    pub open spec fn active_user(self, username: Seq<char>) -> Option<UserRow> {
        first_match(self.users, holds_username(username))
    }

    /// Whether a user who has not been deleted holds `username`.
    pub open spec fn username_taken(self, username: Seq<char>) -> bool {
        self.active_user(username) is Some
    }

    /// The username of the user with the identifier, deleted or not.
    pub open spec fn username_of(self, id: Id) -> Option<Seq<char>> {
        match self.user_row(id) {
            Some(u) => Some(u.username),
            None => None,
        }
    }

    /// Inserting a user: refused when the username is taken, then when the
    /// identifier is; otherwise the row is appended, not deleted.
    pub open spec fn insert_user(self, row: UserRow) -> (Tables, Result<(), Error>) {
        if self.username_taken(row.username) {
            (self, Err(Error::UsernameTaken))
        } else if self.has_user(row.id) {
            (self, Err(Error::StorageFault(Fault::DuplicateKey)))
        } else {
            (
                Tables { users: self.users.push(UserRow { deleted_at: None, ..row }), ..self },
                Ok(()),
            )
        }
    }

    /// Deleting a user: the row with the identifier is stamped with `at`
    /// unless it already carries a stamp.
    pub open spec fn delete_user(self, id: Id, at: Timestamp) -> Tables {
        Tables {
            users: self.users.map_values(user_deleted(id, at)),
            ..self
        }
    }

    /// Inserting a list: refused when the title is empty, then when the
    /// identifier is taken; otherwise the row is appended, not deleted.
    pub open spec fn insert_list(self, row: ListRow) -> (Tables, Result<(), Error>) {
        if row.title.len() == 0 {
            (self, Err(Error::StorageFault(Fault::EmptyTitle)))
        } else if self.has_list(row.id) {
            (self, Err(Error::StorageFault(Fault::DuplicateKey)))
        } else {
            (
                Tables { lists: self.lists.push(ListRow { deleted_at: None, ..row }), ..self },
                Ok(()),
            )
        }
    }

    /// The lists that `owner` sees, in the order of their insertion.
    pub open spec fn visible_lists(self, owner: Id) -> Seq<ListRow> {
        self.lists.filter(seen_by(owner))
    }

    /// The list with the identifier, unless it has been deleted.
    pub open spec fn live_list(self, id: Id) -> Option<ListRow> {
        first_match(self.lists, is_live_list(id))
    }

    /// Whether `owner` sees a list with the identifier.
    pub open spec fn sees_list(self, id: Id, owner: Id) -> bool {
        exists|i: int|
            0 <= i < self.lists.len() && (#[trigger] self.lists[i]).id == id
                && self.lists[i].visible_to(owner)
    }

    /// Deleting a list on behalf of `owner`: the row with the identifier is
    /// stamped with `at` if it is theirs and carries no stamp; every other row
    /// stays as it is.
    pub open spec fn delete_list(self, id: Id, owner: Id, at: Timestamp) -> Tables {
        Tables {
            lists: self.lists.map_values(list_deleted(id, owner, at)),
            ..self
        }
    }

    /// Inserting a task: refused when the title is empty, then when the
    /// identifier is taken; otherwise the row is appended, not completed.
    pub open spec fn insert_task(self, row: TaskRow) -> (Tables, Result<(), Error>) {
        if row.title.len() == 0 {
            (self, Err(Error::StorageFault(Fault::EmptyTitle)))
        } else if self.has_task(row.id) {
            (self, Err(Error::StorageFault(Fault::DuplicateKey)))
        } else {
            (
                Tables {
                    tasks: self.tasks.push(
                        TaskRow { completed_at: None, completed_by: None, ..row },
                    ),
                    ..self
                },
                Ok(()),
            )
        }
    }

    /// The tasks of a list, completed or not, in the order of their insertion.
    pub open spec fn tasks_of(self, list_id: Id) -> Seq<TaskRow> {
        self.tasks.filter(in_list(list_id))
    }

    /// The username of the user who completed the task of a row, if the row
    /// records a completer and the user table holds them.
    pub open spec fn completer_name(self, row: TaskRow) -> Option<Seq<char>> {
        match row.completed_by {
            Some(id) => self.username_of(id),
            None => None,
        }
    }

    /// A task row as it is handed out: with the completer's username in
    /// place of their identifier.
    pub open spec fn named(self) -> spec_fn(TaskRow) -> TaskView {
        |row: TaskRow| TaskView::of_row(row, self.completer_name(row))
    }

    /// The tasks of a list as they are handed out, completed or not, in the
    /// order of their insertion.
    pub open spec fn list_tasks(self, list_id: Id) -> Seq<TaskView> {
        self.tasks_of(list_id).map_values(self.named())
    }

    /// Completing a task: the row with the identifier records `at` and `by`,
    /// whatever it recorded before.
    pub open spec fn complete_task(self, id: Id, by: Id, at: Timestamp) -> Tables {
        Tables {
            tasks: self.tasks.map_values(task_completed(id, by, at)),
            ..self
        }
    }

    /// Reopening a task: the row with the identifier records no completion.
    pub open spec fn uncomplete_task(self, id: Id) -> Tables {
        Tables {
            tasks: self.tasks.map_values(task_reopened(id)),
            ..self
        }
    }

    /// Toggling a task: the row with the identifier is completed by `by` at
    /// `at` if it was open, and reopened if it was completed.
    pub open spec fn toggle_task(self, id: Id, by: Id, at: Timestamp) -> Tables {
        Tables {
            tasks: self.tasks.map_values(task_toggled(id, by, at)),
            ..self
        }
    }
}

} // verus!
