use vstd::prelude::*;

use crate::errors::Error;
use crate::mutation::Mutation;
use crate::password::{bcrypt_matches, hash_password};
use crate::query::Query;
use crate::store::Store;
use crate::user;

verus! {

/// Ensures a user with the given email exists: when none does, the
/// password is hashed and a fresh row is inserted with the given
/// timestamps.  Existing rows are never touched.
fn seed_user(store: &mut Store, name: &str, email: &str, password: &str, now: i64) -> (r: Result<
    (),
    Error,
>)
    requires
        old(store).wf(),
    ensures
        final(store).wf(),
        final(store).posts == old(store).posts,
        final(store).comments == old(store).comments,
        forall|j: int|
            0 <= j < old(store).users@.len() ==> final(store).users@[j] == old(store).users@[j],
        final(store).users@.len() >= old(store).users@.len(),
        forall|j: int|
            old(store).users@.len() <= j < final(store).users@.len()
                ==> (#[trigger] final(store).users@[j]).email@ == email@,
        r is Ok ==> exists|i: int|
            0 <= i < final(store).users@.len() && final(store).users@[i].email@ == email@,
        (forall|i: int|
            0 <= i < old(store).users@.len() ==> (#[trigger] old(store).users@[i]).email@
                != email@) && r is Ok ==> exists|i: int|
            0 <= i < final(store).users@.len() && (#[trigger] final(store).users@[i]).email@
                == email@ && final(store).users@[i].name@ == name@ && bcrypt_matches(
                password@,
                final(store).users@[i].password@,
            ) && final(store).users@[i].created_at == now && final(store).users@[i].updated_at
                == now,
        (exists|i: int|
            0 <= i < old(store).users@.len() && (#[trigger] old(store).users@[i]).email@
                == email@) ==> (r is Ok && *final(store) == *old(store)),
        r is Err ==> *final(store) == *old(store),
{
    match Query::find_user_by_email(store, email) {
        Some(_) => Ok(()),
        None => {
            match hash_password(password) {
                Err(e) => {
                    Err(
                        Error::Storage(
                            "Failed to hash password: ".to_owned().concat(e.as_str()),
                        ),
                    )
                },
                Ok(h) => {
                    let model = user::Model {
                        id: 0,
                        name: name.to_owned(),
                        email: email.to_owned(),
                        password: h,
                        created_at: now,
                        updated_at: now,
                    };
                    match Mutation::create_user(store, model) {
                        Ok(u) => {
                            proof {
                                assert(store.users@[store.users@.len() - 1] == u);
                            }
                            Ok(())
                        },
                        Err(e) => Err(e),
                    }
                },
            }
        },
    }
}

/// Whether `row` occurs in `users`.
pub open spec fn row_in(users: Seq<user::Model>, row: user::Model) -> bool {
    exists|j: int| 0 <= j < users.len() && row == #[trigger] users[j]
}

/// Removes every user carrying the given email.
fn remove_users_by_email(store: &mut Store, email: &str)
    requires
        old(store).wf(),
    ensures
        final(store).wf(),
        final(store).posts == old(store).posts,
        final(store).comments == old(store).comments,
        final(store).next_user_id == old(store).next_user_id,
        forall|i: int|
            0 <= i < final(store).users@.len() ==> (#[trigger] final(store).users@[i]).email@
                != email@,
        forall|i: int|
            0 <= i < final(store).users@.len() ==> #[trigger] row_in(
                old(store).users@,
                final(store).users@[i],
            ),
{
    proof {
        assert forall|i: int|
            0 <= i < store.users@.len() implies #[trigger] row_in(
            old(store).users@,
            store.users@[i],
        ) by {
            assert(store.users@[i] == old(store).users@[i]);
        }
    }
    let mut going = true;
    while going
        invariant
            store.wf(),
            store.posts == old(store).posts,
            store.comments == old(store).comments,
            store.next_user_id == old(store).next_user_id,
            forall|i: int|
                0 <= i < store.users@.len() ==> #[trigger] row_in(
                    old(store).users@,
                    store.users@[i],
                ),
            !going ==> forall|i: int|
                0 <= i < store.users@.len() ==> (#[trigger] store.users@[i]).email@ != email@,
        decreases store.users@.len() + (if going {
            1int
        } else {
            0int
        }),
    {
        let ghost prev = store.users@;
        match Query::find_user_by_email(store, email) {
            None => {
                going = false;
            },
            Some(u) => {
                proof {
                    crate::query::lemma_find_user_by_email(prev, email@);
                    let w = choose|w: int| 0 <= w < prev.len() && prev[w] == u;
                    assert(prev[w].id == u.id);
                    assert(crate::store::has_user(prev, u.id as int));
                }
                let _deleted = Mutation::delete_user(store, u.id);
                proof {
                    let k = choose|k: int|
                        0 <= k < prev.len() && prev[k].id == u.id && store.users@ == prev.remove(
                            k,
                        );
                    prev.remove_ensures(k);
                    assert forall|i: int|
                        0 <= i < store.users@.len() implies #[trigger] row_in(
                        old(store).users@,
                        store.users@[i],
                    ) by {
                        if i < k {
                            assert(store.users@[i] == prev[i]);
                            assert(row_in(old(store).users@, prev[i]));
                        } else {
                            assert(store.users@[i] == prev[i + 1]);
                            assert(row_in(old(store).users@, prev[i + 1]));
                        }
                    }
                }
            },
        }
    }
}

/// The data-seeding pass: makes sure the two bootstrap accounts exist,
/// and can take them out again.
pub struct Migration;

impl Migration {
    /// Seeds the bootstrap accounts, hashing their passwords, skipping
    /// any email that is already taken.
    pub fn up(store: &mut Store) -> (r: Result<(), Error>)
        requires
            old(store).wf(),
        ensures
            final(store).wf(),
            final(store).posts == old(store).posts,
            final(store).comments == old(store).comments,
            forall|j: int|
                0 <= j < old(store).users@.len() ==> final(store).users@[j] == old(
                    store,
                ).users@[j],
            final(store).users@.len() >= old(store).users@.len(),
            r is Ok ==> (exists|i: int|
                0 <= i < final(store).users@.len() && (#[trigger] final(store).users@[i]).email@
                    == "alice@example.com"@) && (exists|i: int|
                0 <= i < final(store).users@.len() && (#[trigger] final(store).users@[i]).email@
                    == "bob@example.com"@),
            (exists|i: int|
                0 <= i < old(store).users@.len() && (#[trigger] old(store).users@[i]).email@
                    == "alice@example.com"@) && (exists|i: int|
                0 <= i < old(store).users@.len() && (#[trigger] old(store).users@[i]).email@
                    == "bob@example.com"@) ==> r is Ok,
            (forall|i: int|
                0 <= i < old(store).users@.len() ==> (#[trigger] old(store).users@[i]).email@
                    != "alice@example.com"@) && r is Ok ==> exists|i: int|
                0 <= i < final(store).users@.len() && (#[trigger] final(store).users@[i]).email@
                    == "alice@example.com"@ && final(store).users@[i].name@ == "Alice"@
                && bcrypt_matches("password123"@, final(store).users@[i].password@),
            (forall|i: int|
                0 <= i < old(store).users@.len() ==> (#[trigger] old(store).users@[i]).email@
                    != "bob@example.com"@) && r is Ok ==> exists|i: int|
                0 <= i < final(store).users@.len() && (#[trigger] final(store).users@[i]).email@
                    == "bob@example.com"@ && final(store).users@[i].name@ == "Bob"@
                && bcrypt_matches("password456"@, final(store).users@[i].password@),
    {
        let now = crate::clock::now_timestamp();
        match seed_user(store, "Alice", "alice@example.com", "password123", now) {
            Err(e) => Err(e),
            Ok(()) => {
                let ghost mid = store.users@;
                match seed_user(store, "Bob", "bob@example.com", "password456", now) {
                    Err(e) => Err(e),
                    Ok(()) => {
                        proof {
                            reveal_strlit("alice@example.com");
                            reveal_strlit("bob@example.com");
                            assert("alice@example.com"@.len() != "bob@example.com"@.len());
                            let i = choose|i: int|
                                0 <= i < mid.len() && mid[i].email@ == "alice@example.com"@;
                            assert(store.users@[i] == mid[i]);
                            if (forall|i2: int|
                                0 <= i2 < old(store).users@.len()
                                    ==> (#[trigger] old(store).users@[i2]).email@
                                    != "alice@example.com"@) {
                                let a = choose|a: int|
                                    0 <= a < mid.len() && (#[trigger] mid[a]).email@
                                        == "alice@example.com"@ && mid[a].name@ == "Alice"@
                                        && bcrypt_matches("password123"@, mid[a].password@);
                                assert(store.users@[a] == mid[a]);
                            }
                            if (forall|i2: int|
                                0 <= i2 < old(store).users@.len()
                                    ==> (#[trigger] old(store).users@[i2]).email@
                                    != "bob@example.com"@) {
                                assert forall|i2: int|
                                    0 <= i2 < mid.len() implies (#[trigger] mid[i2]).email@
                                    != "bob@example.com"@ by {
                                    if i2 < old(store).users@.len() {
                                        assert(mid[i2] == old(store).users@[i2]);
                                    }
                                }
                            }
                        }
                        Ok(())
                    },
                }
            },
        }
    }

    /// Removes the bootstrap accounts.
    pub fn down(store: &mut Store) -> (r: Result<(), Error>)
        requires
            old(store).wf(),
        ensures
            final(store).wf(),
            final(store).posts == old(store).posts,
            final(store).comments == old(store).comments,
            r is Ok,
            forall|i: int|
                0 <= i < final(store).users@.len() ==> (#[trigger] final(store).users@[i]).email@
                    != "alice@example.com"@ && final(store).users@[i].email@
                    != "bob@example.com"@,
            forall|i: int|
                0 <= i < final(store).users@.len() ==> #[trigger] row_in(
                    old(store).users@,
                    final(store).users@[i],
                ),
    {
        remove_users_by_email(store, "alice@example.com");
        let ghost mid = store.users@;
        remove_users_by_email(store, "bob@example.com");
        proof {
            assert forall|i: int|
                0 <= i < store.users@.len() implies (#[trigger] store.users@[i]).email@
                != "alice@example.com"@ && store.users@[i].email@ != "bob@example.com"@ && row_in(
                old(store).users@,
                store.users@[i],
            ) by {
                assert(row_in(mid, store.users@[i]));
                let j = choose|j: int| 0 <= j < mid.len() && store.users@[i] == mid[j];
                assert(store.users@[i].email@ == mid[j].email@);
                assert(row_in(old(store).users@, mid[j]));
            }
        }
        Ok(())
    }
}

} // verus!
