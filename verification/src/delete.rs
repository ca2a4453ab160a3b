use vstd::prelude::*;

use crate::errors::{DeleteResult, Error};
use crate::mutation::{users_removed, Mutation};
use crate::store::{has_user, Store};

verus! {

/// Delete-by-id persistence for users.
pub struct Delete;

impl Delete {
    /// Deletes the user with the given id.  The delete is idempotent:
    /// deleting an id that is not present succeeds and reports zero
    /// affected rows.
    pub fn delete_user(store: &mut Store, id: i32) -> (r: Result<DeleteResult, Error>)
        requires
            old(store).wf(),
        ensures
            final(store).wf(),
            final(store).posts == old(store).posts,
            final(store).comments == old(store).comments,
            final(store).next_user_id == old(store).next_user_id,
            has_user(old(store).users@, id as int) ==> (r matches Ok(d) && d.rows_affected == 1
                && !has_user(final(store).users@, id as int) && users_removed(
                old(store).users@,
                final(store).users@,
                id,
            )),
            !has_user(old(store).users@, id as int) ==> (r matches Ok(d) && d.rows_affected == 0
                && *final(store) == *old(store)),
    {
        match Mutation::delete_user(store, id) {
            Ok(d) => Ok(d),
            Err(_) => Ok(DeleteResult { rows_affected: 0 }),
        }
    }
}

} // verus!
