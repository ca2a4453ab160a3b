use vstd::prelude::*;

use crate::mutation::{users_removed, users_updated};
use crate::password::{bcrypt_matches, hash_password};
use crate::query::Query;
use crate::response::ApiResponse;
use crate::save::Save;
use crate::store::{has_user, Store};
use crate::user;

verus! {

/// Creates a new user: rejects a taken email with a conflict, hashes
/// the password, and saves the record.
pub fn create(store: &mut Store, user: user::Model) -> (r: Result<
    ApiResponse<user::Model>,
    (u16, ApiResponse<String>),
>)
    requires
        old(store).wf(),
    ensures
        final(store).wf(),
        final(store).posts == old(store).posts,
        final(store).comments == old(store).comments,
        (exists|i: int|
            0 <= i < old(store).users@.len() && old(store).users@[i].email@ == user.email@) ==> (
        r matches Err(t) && t.0 == 409 && t.1.code == 409 && t.1.message@
            == "User with this email already exists"@ && *final(store) == *old(store)),
        r matches Ok(env) ==> (env.code == 200 && env.message@ == "Success"@ && (env.data
            matches Some(u) && bcrypt_matches(user.password@, u.password@) && u.password@.len()
            == 60 && u.password@[0] == '$' && u.name == user.name && u.email == user.email
            && u.created_at == user.created_at && u.updated_at == user.updated_at && (user.id
            == 0 ==> u.id == old(store).next_user_id && final(store).users@ == old(
            store,
        ).users@.push(u)) && (user.id != 0 ==> u.id == user.id && users_updated(
            old(store).users@,
            final(store).users@,
            user.id,
            u,
        )))),
        r matches Err(t) ==> (t.1.code == t.0 && t.1.data is None && (t.0 == 500
            ==> (*final(store) == *old(store) && ((t.1.message@.len() >= 25
            && t.1.message@.subrange(0, 25)
            == "Failed to hash password: "@) || (t.1.message@.len() >= 23
            && t.1.message@.subrange(0, 23) == "Failed to create user: "@))))),
        (forall|i: int|
            0 <= i < old(store).users@.len() ==> (#[trigger] old(store).users@[i]).email@
                != user.email@) ==> (r is Ok || (r matches Err(t) && t.0 == 500)),
{
    match Query::find_user_by_email(store, user.email.as_str()) {
        Some(_) => {
            Err(
                (
                    409,
                    ApiResponse {
                        code: 409,
                        message: "User with this email already exists".to_owned(),
                        data: None,
                    },
                ),
            )
        },
        None => {
            match hash_password(user.password.as_str()) {
                Err(e) => {
                    let message = "Failed to hash password: ".to_owned().concat(e.as_str());
                    proof {
                        reveal_strlit("Failed to hash password: ");
                        assert(message@.subrange(0, 25) =~= "Failed to hash password: "@);
                    }
                    Err((500, ApiResponse { code: 500, message, data: None }))
                },
                Ok(h) => {
                    let to_save = user::Model {
                        id: user.id,
                        name: user.name,
                        email: user.email,
                        password: h,
                        created_at: user.created_at,
                        updated_at: user.updated_at,
                    };
                    match Save::save_user(store, to_save) {
                        Ok(saved) => Ok(ApiResponse::success_with_data(saved)),
                        Err(e) => {
                            let message = "Failed to create user: ".to_owned().concat(
                                e.message().as_str(),
                            );
                            proof {
                                reveal_strlit("Failed to create user: ");
                                assert(message@.subrange(0, 23)
                                    =~= "Failed to create user: "@);
                            }
                            Err((500, ApiResponse { code: 500, message, data: None }))
                        },
                    }
                },
            }
        },
    }
}

/// Deletes a user by id.  The underlying delete is idempotent, so a
/// missing id still reports success.
pub fn delete(store: &mut Store, id: i32) -> (r: Result<
    ApiResponse<()>,
    (u16, ApiResponse<String>),
>)
    requires
        old(store).wf(),
    ensures
        final(store).wf(),
        final(store).posts == old(store).posts,
        final(store).comments == old(store).comments,
        final(store).next_user_id == old(store).next_user_id,
        r matches Ok(env) && env.code == 200 && env.message@ == "User deleted successfully"@
            && env.data is None,
        has_user(old(store).users@, id as int) ==> !has_user(final(store).users@, id as int)
            && users_removed(old(store).users@, final(store).users@, id),
        !has_user(old(store).users@, id as int) ==> *final(store) == *old(store),
{
    match crate::delete::Delete::delete_user(store, id) {
        Ok(_) => Ok(
            ApiResponse::<String>::success_with_message("User deleted successfully".to_owned()),
        ),
        Err(e) => {
            // the idempotent delete never fails on the store model
            let st = e.status_code();
            Err((st, ApiResponse { code: st, message: e.message(), data: None }))
        },
    }
}

/// Replaces a full user record: succeeds exactly when a row with the
/// record's id exists, and is not found otherwise.  No row ever
/// carries id 0, so a record with id 0 is not found; creation is the
/// create path's job.
pub fn update(store: &mut Store, user: user::Model) -> (r: Result<
    ApiResponse<user::Model>,
    (u16, ApiResponse<String>),
>)
    requires
        old(store).wf(),
    ensures
        final(store).wf(),
        final(store).posts == old(store).posts,
        final(store).comments == old(store).comments,
        has_user(old(store).users@, user.id as int) ==> (r matches Ok(env) && env.code == 200
            && env.message@ == "Success"@ && (env.data matches Some(u) && u.id == user.id
            && u.name == user.name && u.email == user.email && u.password == user.password
            && u.created_at == user.created_at && u.updated_at == user.updated_at
            && users_updated(old(store).users@, final(store).users@, user.id, u))),
        !has_user(old(store).users@, user.id as int) ==> (r matches Err(t) && t.0 == 404
            && t.1.code == 404 && t.1.message@ == "Cannot find user."@ && *final(store) == *old(
            store,
        )),
{
    if user.id == 0 {
        // the store never assigns id 0, so there is no row to replace
        proof {
            assert(!has_user(store.users@, 0int));
        }
        return Err(
            (
                404,
                ApiResponse { code: 404, message: "Cannot find user.".to_owned(), data: None },
            ),
        );
    }
    match Save::save_user(store, user) {
        Ok(saved) => Ok(ApiResponse::success_with_data(saved)),
        Err(e) => {
            let st = e.status_code();
            Err((st, ApiResponse { code: st, message: e.message(), data: None }))
        },
    }
}

} // verus!
