use vstd::prelude::*;

use crate::errors::Error;
use crate::mutation::{users_updated, Mutation};
use crate::store::{has_user, Store};
use crate::user;

verus! {

/// Upsert-style persistence for users.
pub struct Save;

impl Save {
    /// Saves a user record: a record with id 0 is inserted and given a
    /// fresh id; a record with a known id replaces that row in full; a
    /// record with an unknown non-zero id is rejected.
    pub fn save_user(store: &mut Store, user: user::Model) -> (r: Result<user::Model, Error>)
        requires
            old(store).wf(),
        ensures
            final(store).wf(),
            final(store).posts == old(store).posts,
            final(store).comments == old(store).comments,
            user.id == 0 && old(store).next_user_id < i32::MAX ==> (r matches Ok(u) && u.id
                == old(store).next_user_id && u.name == user.name && u.email == user.email
                && u.password == user.password && u.created_at == user.created_at && u.updated_at
                == user.updated_at && final(store).users@ == old(store).users@.push(u)
                && final(store).next_user_id == old(store).next_user_id + 1),
            user.id == 0 && old(store).next_user_id == i32::MAX ==> (r matches Err(e)
                && e is Storage && *final(store) == *old(store)),
            user.id != 0 && has_user(old(store).users@, user.id as int) ==> (r matches Ok(u)
                && u.id == user.id && u.name == user.name && u.email == user.email && u.password
                == user.password && u.created_at == user.created_at && u.updated_at
                == user.updated_at && final(store).users@.len() == old(store).users@.len()
                && users_updated(old(store).users@, final(store).users@, user.id, u)),
            user.id != 0 && !has_user(old(store).users@, user.id as int) ==> (r matches Err(e)
                && e matches Error::NotFound(m) && m@ == "Cannot find user."@ && *final(store)
                == *old(store)),
    {
        if user.id == 0 {
            Mutation::create_user(store, user)
        } else {
            let id = user.id;
            Mutation::update_user_by_id(store, id, user)
        }
    }
}

} // verus!
