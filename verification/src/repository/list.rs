//! Lists in the store.

use vstd::prelude::*;
use crate::model::ident::Id;
use crate::model::list::{list_views, List};
use crate::model::time::{now, Timestamp};
use crate::repository::error::Error;
use crate::repository::store::{list_rows, Store};

verus! {

impl List {
    /// Stores this list, not deleted whatever `deleted_at` holds.
    ///
    /// Fails with an empty-title fault when the title is empty, and with a
    /// duplicate-key fault when the identifier is taken; the store is then
    /// unchanged.
    pub fn create_list(&self, store: &mut Store) -> (r: Result<(), Error>)
        ensures
            old(store).wf() ==> final(store).wf(),
            (final(store)@, r) == old(store)@.insert_list(self@),
    {
        store.insert_list(self.to_row())
    }

    /// The lists that `user_id` created and that have not been deleted, in
    /// the order of their creation. Never fails.
    pub fn get_user_lists(user_id: Id, store: &Store) -> (r: Result<Vec<List>, Error>)
        ensures
            r matches Ok(lists) && list_views(lists@) == store@.visible_lists(user_id),
    {
        let rows = store.visible_lists(user_id);
        let mut out: Vec<List> = Vec::new();
        let mut i: usize = 0;
        while i < rows.len()
            invariant
                i <= rows.len(),
                list_views(out@) =~= list_rows(rows@).take(i as int),
            decreases rows.len() - i,
        {
            let ghost before = out@;
            out.push(List::from_row(&rows[i]));
            assert(list_views(out@) =~= list_views(before).push(rows[i as int]@));
            assert(list_rows(rows@).take(i + 1) =~= list_rows(rows@).take(i as int).push(
                rows[i as int]@,
            ));
            i += 1;
        }
        assert(list_rows(rows@).take(rows.len() as int) =~= list_rows(rows@));
        Ok(out)
    }

    /// Marks this list as deleted now, on behalf of `owner_id`.
    ///
    /// Only the identifier of `self` is read. The row is changed only if
    /// `owner_id` created it and it is not yet deleted; otherwise nothing
    /// changes, and the call reports success all the same.
    pub fn delete_list(&self, owner_id: Id, store: &mut Store) -> (r: Result<(), Error>)
        ensures
            old(store).wf() ==> final(store).wf(),
            r is Ok,
            exists|at: Timestamp| final(store)@ == #[trigger] old(store)@.delete_list(
                self.id,
                owner_id,
                at,
            ),
    {
        let at = now();
        let r = self.delete_list_at(owner_id, at, store);
        assert(store@ == old(store)@.delete_list(self.id, owner_id, at));
        r
    }

    /// Marks this list as deleted at `deleted_at`, on behalf of `owner_id`.
    ///
    /// Only the identifier of `self` is read. The row is changed only if
    /// `owner_id` created it and it is not yet deleted; otherwise nothing
    /// changes, and the call reports success all the same.
    pub fn delete_list_at(&self, owner_id: Id, deleted_at: Timestamp, store: &mut Store) -> (r:
        Result<(), Error>)
        ensures
            old(store).wf() ==> final(store).wf(),
            r is Ok,
            final(store)@ == old(store)@.delete_list(self.id, owner_id, deleted_at),
    {
        let _ = store.delete_list(self.id, owner_id, deleted_at);
        Ok(())
    }
}

} // verus!
