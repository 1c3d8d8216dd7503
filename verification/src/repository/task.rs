//! Tasks in the store.

use vstd::prelude::*;
use crate::model::ident::Id;
use crate::model::task::{task_views, Task};
use crate::model::time::{now, Timestamp};
use crate::repository::error::Error;
use crate::repository::store::{task_rows, Store};

verus! {

impl Task {
    /// Stores the task, not completed whatever it holds of a completion.
    ///
    /// Fails with an empty-title fault when the title is empty, and with a
    /// duplicate-key fault when the identifier is taken; the store is then
    /// unchanged.
    pub fn create_task(&self, store: &mut Store) -> (r: Result<(), Error>)
        ensures
            old(store).wf() ==> final(store).wf(),
            (final(store)@, r) == old(store)@.insert_task(self@.row()),
    {
        store.insert_task(self.to_row())
    }

    /// The tasks of a list, completed or not, in the order of their
    /// creation, each with the username of its completer. Whose list it is
    /// plays no part. Never fails.
    pub fn get_list_tasks(list_id: Id, store: &Store) -> (r: Result<Vec<Task>, Error>)
        ensures
            r matches Ok(tasks) && task_views(tasks@) == store@.list_tasks(list_id),
    {
        let rows = store.tasks_of(list_id);
        let mut out: Vec<Task> = Vec::new();
        let mut i: usize = 0;
        while i < rows.len()
            invariant
                i <= rows.len(),
                task_views(out@) =~= task_rows(rows@).take(i as int).map_values(store@.named()),
            decreases rows.len() - i,
        {
            let row = &rows[i];
            let completed_by = match row.completed_by {
                Some(id) => store.username_of(id),
                None => None,
            };
            let ghost before = out@;
            out.push(Task::from_row(row, completed_by));
            assert(task_views(out@) =~= task_views(before).push(store@.named()(row@)));
            assert(task_rows(rows@).take(i + 1) =~= task_rows(rows@).take(i as int).push(row@));
            i += 1;
        }
        assert(task_rows(rows@).take(rows.len() as int) =~= task_rows(rows@));
        Ok(out)
    }

    /// Records that `user_id` completed the task now, whatever was recorded
    /// before and whoever owns the list.
    ///
    /// Only the identifier of `self` is read. Where no task has it, nothing
    /// changes, and the call reports success all the same.
    pub fn complete_task(&self, user_id: Id, store: &mut Store) -> (r: Result<(), Error>)
        ensures
            old(store).wf() ==> final(store).wf(),
            r is Ok,
            exists|at: Timestamp| final(store)@ == #[trigger] old(store)@.complete_task(
                self.id,
                user_id,
                at,
            ),
    {
        let at = now();
        let r = self.complete_task_at(user_id, at, store);
        assert(store@ == old(store)@.complete_task(self.id, user_id, at));
        r
    }

    /// Records that `user_id` completed the task at `completed_at`,
    /// whatever was recorded before and whoever owns the list.
    ///
    /// Only the identifier of `self` is read. Where no task has it, nothing
    /// changes, and the call reports success all the same.
    pub fn complete_task_at(&self, user_id: Id, completed_at: Timestamp, store: &mut Store) -> (r:
        Result<(), Error>)
        ensures
            old(store).wf() ==> final(store).wf(),
            r is Ok,
            final(store)@ == old(store)@.complete_task(self.id, user_id, completed_at),
    {
        let _ = store.complete_task(self.id, user_id, completed_at);
        Ok(())
    }

    /// Clears the completion instant and the completer of the task.
    ///
    /// Only the identifier of `self` is read. Where no task has it, nothing
    /// changes, and the call reports success all the same.
    pub fn uncomplete_task(&self, store: &mut Store) -> (r: Result<(), Error>)
        ensures
            old(store).wf() ==> final(store).wf(),
            r is Ok,
            final(store)@ == old(store)@.uncomplete_task(self.id),
    {
        let _ = store.uncomplete_task(self.id);
        Ok(())
    }
}

} // verus!
