use vstd::prelude::*;

use crate::comment;
use crate::errors::{DeleteResult, Error};
use crate::post;
use crate::store::{has_comment, has_post, has_user, Store};
use crate::user;

verus! {

/// Index of the post row with the given id, if any.
fn post_index_of(v: &Vec<post::Model>, id: i32) -> (r: Option<usize>)
    ensures
        r matches Some(i) ==> i < v@.len() && v@[i as int].id == id,
        r is None ==> !has_post(v@, id as int),
{
    let n = v.len();
    let mut i: usize = 0;
    while i < n
        invariant
            n == v@.len(),
            0 <= i <= n,
            forall|j: int| 0 <= j < i ==> #[trigger] v@[j].id != id,
        decreases n - i,
    {
        if v[i].id == id {
            return Some(i);
        }
        i += 1;
    }
    None
}

/// Index of the user row with the given id, if any.
fn user_index_of(v: &Vec<user::Model>, id: i32) -> (r: Option<usize>)
    ensures
        r matches Some(i) ==> i < v@.len() && v@[i as int].id == id,
        r is None ==> !has_user(v@, id as int),
{
    let n = v.len();
    let mut i: usize = 0;
    while i < n
        invariant
            n == v@.len(),
            0 <= i <= n,
            forall|j: int| 0 <= j < i ==> #[trigger] v@[j].id != id,
        decreases n - i,
    {
        if v[i].id == id {
            return Some(i);
        }
        i += 1;
    }
    None
}

/// Index of the comment row with the given id, if any.
fn comment_index_of(v: &Vec<comment::Model>, id: i32) -> (r: Option<usize>)
    ensures
        r matches Some(i) ==> i < v@.len() && v@[i as int].id == id,
        r is None ==> !has_comment(v@, id as int),
{
    let n = v.len();
    let mut i: usize = 0;
    while i < n
        invariant
            n == v@.len(),
            0 <= i <= n,
            forall|j: int| 0 <= j < i ==> #[trigger] v@[j].id != id,
        decreases n - i,
    {
        if v[i].id == id {
            return Some(i);
        }
        i += 1;
    }
    None
}

/// The posts table changed exactly by replacing the row carrying `id`
/// with `p`.
pub open spec fn posts_updated(
    pre: Seq<post::Model>,
    cur: Seq<post::Model>,
    id: i32,
    p: post::Model,
) -> bool {
    exists|i: int| 0 <= i < pre.len() && pre[i].id == id && cur == pre.update(i, p)
}

/// The posts table changed exactly by removing the row carrying `id`.
pub open spec fn posts_removed(pre: Seq<post::Model>, cur: Seq<post::Model>, id: i32) -> bool {
    exists|i: int| 0 <= i < pre.len() && pre[i].id == id && cur == pre.remove(i)
}

/// The users table changed exactly by replacing the row carrying `id`
/// with `u`.
pub open spec fn users_updated(
    pre: Seq<user::Model>,
    cur: Seq<user::Model>,
    id: i32,
    u: user::Model,
) -> bool {
    exists|i: int| 0 <= i < pre.len() && pre[i].id == id && cur == pre.update(i, u)
}

/// The users table changed exactly by removing the row carrying `id`.
pub open spec fn users_removed(pre: Seq<user::Model>, cur: Seq<user::Model>, id: i32) -> bool {
    exists|i: int| 0 <= i < pre.len() && pre[i].id == id && cur == pre.remove(i)
}

/// The comments table changed exactly by replacing the row carrying
/// `id` with `c`.
pub open spec fn comments_updated(
    pre: Seq<comment::Model>,
    cur: Seq<comment::Model>,
    id: i32,
    c: comment::Model,
) -> bool {
    exists|i: int| 0 <= i < pre.len() && pre[i].id == id && cur == pre.update(i, c)
}

/// The comments table changed exactly by removing the row carrying `id`.
pub open spec fn comments_removed(
    pre: Seq<comment::Model>,
    cur: Seq<comment::Model>,
    id: i32,
) -> bool {
    exists|i: int| 0 <= i < pre.len() && pre[i].id == id && cur == pre.remove(i)
}

/// Write-side service operations, specified against the store model.
pub struct Mutation;

impl Mutation {
    /// Inserts a new post built from the supplied title, body and owner;
    /// the store assigns the id.  No check is made that the owner
    /// exists: that guard lives in the handler layer.
    pub fn create_post(store: &mut Store, form_data: post::Model) -> (r: Result<
        post::Model,
        Error,
    >)
        requires
            old(store).wf(),
        ensures
            final(store).wf(),
            final(store).users == old(store).users,
            final(store).comments == old(store).comments,
            old(store).next_post_id < i32::MAX ==> (r matches Ok(p) && p.id == old(store).next_post_id && p.title == form_data.title && p.body == form_data.body && p.user_id
                == form_data.user_id && final(store).posts@ == old(store).posts@.push(p) && final(store).next_post_id == old(store).next_post_id + 1),
            old(store).next_post_id == i32::MAX ==> (r matches Err(e) && e is Storage
                && *final(store) == *old(store)),
    {
        if store.next_post_id == i32::MAX {
            return Err(Error::Storage("post table is full".to_owned()));
        }
        let p = post::Model {
            id: store.next_post_id,
            user_id: form_data.user_id,
            title: form_data.title,
            body: form_data.body,
        };
        let ghost pre = store.posts@;
        store.posts.push(p.clone());
        store.next_post_id = store.next_post_id + 1;
        proof {
            assert forall|i: int, j: int|
                0 <= i < j < store.posts@.len() implies store.posts@[i].id
                < store.posts@[j].id by {
                if j < pre.len() {
                } else {
                    assert(store.posts@[i] == pre[i]);
                }
            }
        }
        Ok(p)
    }

    /// Replaces title, body and owner of the post with the given id.
    pub fn update_post_by_id(store: &mut Store, id: i32, form_data: post::Model) -> (r: Result<
        post::Model,
        Error,
    >)
        requires
            old(store).wf(),
        ensures
            final(store).wf(),
            final(store).users == old(store).users,
            final(store).comments == old(store).comments,
            final(store).next_post_id == old(store).next_post_id,
            !has_post(old(store).posts@, id as int) ==> (r matches Err(e) && e matches
                Error::NotFound(m) && m@ == "Cannot find post."@ && *final(store) == *old(store)),
            has_post(old(store).posts@, id as int) ==> (r matches Ok(p) && p.id == id && p.title
                == form_data.title && p.body == form_data.body && p.user_id == form_data.user_id
                && final(store).posts@.len() == old(store).posts@.len() && posts_updated(
                old(store).posts@,
                final(store).posts@,
                id,
                p,
            )),
    {
        match post_index_of(&store.posts, id) {
            None => Err(Error::NotFound("Cannot find post.".to_owned())),
            Some(i) => {
                let p = post::Model {
                    id,
                    user_id: form_data.user_id,
                    title: form_data.title,
                    body: form_data.body,
                };
                let ghost pre = store.posts@;
                store.posts.remove(i);
                store.posts.insert(i, p.clone());
                proof {
                    pre.remove_ensures(i as int);
                    pre.remove(i as int).insert_ensures(i as int, p);
                    assert(store.posts@ =~= pre.update(i as int, p));
                    assert(posts_updated(pre, store.posts@, id, p));
                    assert(forall|j: int|
                        0 <= j < store.posts@.len() ==> #[trigger] store.posts@[j].id == pre[
                            j
                        ].id);
                }
                Ok(p)
            },
        }
    }

    /// Deletes the post with the given id; it is an error if no such
    /// post exists.
    pub fn delete_post(store: &mut Store, id: i32) -> (r: Result<DeleteResult, Error>)
        requires
            old(store).wf(),
        ensures
            final(store).wf(),
            final(store).users == old(store).users,
            final(store).comments == old(store).comments,
            final(store).next_post_id == old(store).next_post_id,
            !has_post(old(store).posts@, id as int) ==> (r matches Err(e) && e matches
                Error::NotFound(m) && m@ == "Cannot find post."@ && *final(store) == *old(store)),
            has_post(old(store).posts@, id as int) ==> (r matches Ok(d) && d.rows_affected == 1
                && !has_post(final(store).posts@, id as int) && posts_removed(
                old(store).posts@,
                final(store).posts@,
                id,
            )),
    {
        match post_index_of(&store.posts, id) {
            None => Err(Error::NotFound("Cannot find post.".to_owned())),
            Some(i) => {
                let ghost pre = store.posts@;
                store.posts.remove(i);
                proof {
                    pre.remove_ensures(i as int);
                    assert(store.posts@ =~= pre.remove(i as int));
                    assert(posts_removed(pre, store.posts@, id));
                    assert(forall|j: int|
                        0 <= j < i ==> #[trigger] store.posts@[j] == pre[j]);
                    assert(forall|j: int|
                        i <= j < store.posts@.len() ==> #[trigger] store.posts@[j] == pre[
                            j + 1
                        ]);
                }
                Ok(DeleteResult { rows_affected: 1 })
            },
        }
    }

    /// Empties the post table.
    pub fn delete_all_posts(store: &mut Store) -> (r: Result<DeleteResult, Error>)
        requires
            old(store).wf(),
        ensures
            final(store).wf(),
            final(store).users == old(store).users,
            final(store).comments == old(store).comments,
            final(store).next_post_id == old(store).next_post_id,
            r matches Ok(d) && d.rows_affected == old(store).posts@.len(),
            final(store).posts@.len() == 0,
    {
        let n = store.posts.len() as u64;
        store.posts.clear();
        Ok(DeleteResult { rows_affected: n })
    }

    /// Inserts a new user built from the supplied fields; the store
    /// assigns the id.
    pub fn create_user(store: &mut Store, form_data: user::Model) -> (r: Result<
        user::Model,
        Error,
    >)
        requires
            old(store).wf(),
        ensures
            final(store).wf(),
            final(store).posts == old(store).posts,
            final(store).comments == old(store).comments,
            old(store).next_user_id < i32::MAX ==> (r matches Ok(u) && u.id == old(store).next_user_id && u.name == form_data.name && u.email == form_data.email && u.password
                == form_data.password && u.created_at == form_data.created_at && u.updated_at
                == form_data.updated_at && final(store).users@ == old(store).users@.push(u)
                && final(store).next_user_id == old(store).next_user_id + 1),
            old(store).next_user_id == i32::MAX ==> (r matches Err(e) && e is Storage
                && *final(store) == *old(store)),
    {
        if store.next_user_id == i32::MAX {
            return Err(Error::Storage("user table is full".to_owned()));
        }
        let u = user::Model {
            id: store.next_user_id,
            name: form_data.name,
            email: form_data.email,
            password: form_data.password,
            created_at: form_data.created_at,
            updated_at: form_data.updated_at,
        };
        let ghost pre = store.users@;
        store.users.push(u.clone());
        store.next_user_id = store.next_user_id + 1;
        proof {
            assert forall|i: int, j: int|
                0 <= i < j < store.users@.len() implies store.users@[i].id
                < store.users@[j].id by {
                if j < pre.len() {
                } else {
                    assert(store.users@[i] == pre[i]);
                }
            }
        }
        Ok(u)
    }

    /// Replaces every mutable field of the user with the given id.
    pub fn update_user_by_id(store: &mut Store, id: i32, form_data: user::Model) -> (r: Result<
        user::Model,
        Error,
    >)
        requires
            old(store).wf(),
        ensures
            final(store).wf(),
            final(store).posts == old(store).posts,
            final(store).comments == old(store).comments,
            final(store).next_user_id == old(store).next_user_id,
            !has_user(old(store).users@, id as int) ==> (r matches Err(e) && e matches
                Error::NotFound(m) && m@ == "Cannot find user."@ && *final(store) == *old(store)),
            has_user(old(store).users@, id as int) ==> (r matches Ok(u) && u.id == id && u.name
                == form_data.name && u.email == form_data.email && u.password
                == form_data.password && u.created_at == form_data.created_at && u.updated_at
                == form_data.updated_at && final(store).users@.len() == old(store).users@.len()
                && users_updated(old(store).users@, final(store).users@, id, u)),
    {
        match user_index_of(&store.users, id) {
            None => Err(Error::NotFound("Cannot find user.".to_owned())),
            Some(i) => {
                let u = user::Model {
                    id,
                    name: form_data.name,
                    email: form_data.email,
                    password: form_data.password,
                    created_at: form_data.created_at,
                    updated_at: form_data.updated_at,
                };
                let ghost pre = store.users@;
                store.users.remove(i);
                store.users.insert(i, u.clone());
                proof {
                    pre.remove_ensures(i as int);
                    pre.remove(i as int).insert_ensures(i as int, u);
                    assert(store.users@ =~= pre.update(i as int, u));
                    assert(users_updated(pre, store.users@, id, u));
                    assert(forall|j: int|
                        0 <= j < store.users@.len() ==> #[trigger] store.users@[j].id == pre[
                            j
                        ].id);
                }
                Ok(u)
            },
        }
    }

    /// Deletes the user with the given id; it is an error if no such
    /// user exists.
    pub fn delete_user(store: &mut Store, id: i32) -> (r: Result<DeleteResult, Error>)
        requires
            old(store).wf(),
        ensures
            final(store).wf(),
            final(store).posts == old(store).posts,
            final(store).comments == old(store).comments,
            final(store).next_user_id == old(store).next_user_id,
            !has_user(old(store).users@, id as int) ==> (r matches Err(e) && e matches
                Error::NotFound(m) && m@ == "Cannot find user."@ && *final(store) == *old(store)),
            has_user(old(store).users@, id as int) ==> (r matches Ok(d) && d.rows_affected == 1
                && !has_user(final(store).users@, id as int) && users_removed(
                old(store).users@,
                final(store).users@,
                id,
            )),
    {
        match user_index_of(&store.users, id) {
            None => Err(Error::NotFound("Cannot find user.".to_owned())),
            Some(i) => {
                let ghost pre = store.users@;
                store.users.remove(i);
                proof {
                    pre.remove_ensures(i as int);
                    assert(store.users@ =~= pre.remove(i as int));
                    assert(users_removed(pre, store.users@, id));
                    assert(forall|j: int|
                        0 <= j < i ==> #[trigger] store.users@[j] == pre[j]);
                    assert(forall|j: int|
                        i <= j < store.users@.len() ==> #[trigger] store.users@[j] == pre[
                            j + 1
                        ]);
                }
                Ok(DeleteResult { rows_affected: 1 })
            },
        }
    }

    /// Empties the users table.
    pub fn delete_all_users(store: &mut Store) -> (r: Result<DeleteResult, Error>)
        requires
            old(store).wf(),
        ensures
            final(store).wf(),
            final(store).posts == old(store).posts,
            final(store).comments == old(store).comments,
            final(store).next_user_id == old(store).next_user_id,
            r matches Ok(d) && d.rows_affected == old(store).users@.len(),
            final(store).users@.len() == 0,
    {
        let n = store.users.len() as u64;
        store.users.clear();
        Ok(DeleteResult { rows_affected: n })
    }

    /// Inserts a new comment built from the supplied content, author and
    /// post; the store assigns the id.
    pub fn create_comment(store: &mut Store, form_data: comment::Model) -> (r: Result<
        comment::Model,
        Error,
    >)
        requires
            old(store).wf(),
        ensures
            final(store).wf(),
            final(store).users == old(store).users,
            final(store).posts == old(store).posts,
            old(store).next_comment_id < i32::MAX ==> (r matches Ok(c) && c.id == old(store).next_comment_id && c.content == form_data.content && c.user_id == form_data.user_id
                && c.post_id == form_data.post_id && final(store).comments@ == old(store).comments@.push(c) && final(store).next_comment_id == old(store).next_comment_id + 1),
            old(store).next_comment_id == i32::MAX ==> (r matches Err(e) && e is Storage
                && *final(store) == *old(store)),
    {
        if store.next_comment_id == i32::MAX {
            return Err(Error::Storage("comment table is full".to_owned()));
        }
        let c = comment::Model {
            id: store.next_comment_id,
            user_id: form_data.user_id,
            post_id: form_data.post_id,
            content: form_data.content,
        };
        let ghost pre = store.comments@;
        store.comments.push(c.clone());
        store.next_comment_id = store.next_comment_id + 1;
        proof {
            assert forall|i: int, j: int|
                0 <= i < j < store.comments@.len() implies store.comments@[i].id
                < store.comments@[j].id by {
                if j < pre.len() {
                } else {
                    assert(store.comments@[i] == pre[i]);
                }
            }
        }
        Ok(c)
    }

    /// Replaces content, author and post of the comment with the given
    /// id.
    pub fn update_comment_by_id(store: &mut Store, id: i32, form_data: comment::Model) -> (r:
        Result<comment::Model, Error>)
        requires
            old(store).wf(),
        ensures
            final(store).wf(),
            final(store).users == old(store).users,
            final(store).posts == old(store).posts,
            final(store).next_comment_id == old(store).next_comment_id,
            !has_comment(old(store).comments@, id as int) ==> (r matches Err(e) && e matches
                Error::NotFound(m) && m@ == "Cannot find comment."@ && *final(store) == *old(store)),
            has_comment(old(store).comments@, id as int) ==> (r matches Ok(c) && c.id == id
                && c.content == form_data.content && c.user_id == form_data.user_id && c.post_id
                == form_data.post_id && final(store).comments@.len() == old(store).comments@.len() && comments_updated(old(store).comments@, final(store).comments@, id, c)),
    {
        match comment_index_of(&store.comments, id) {
            None => Err(Error::NotFound("Cannot find comment.".to_owned())),
            Some(i) => {
                let c = comment::Model {
                    id,
                    user_id: form_data.user_id,
                    post_id: form_data.post_id,
                    content: form_data.content,
                };
                let ghost pre = store.comments@;
                store.comments.remove(i);
                store.comments.insert(i, c.clone());
                proof {
                    pre.remove_ensures(i as int);
                    pre.remove(i as int).insert_ensures(i as int, c);
                    assert(store.comments@ =~= pre.update(i as int, c));
                    assert(comments_updated(pre, store.comments@, id, c));
                    assert(forall|j: int|
                        0 <= j < store.comments@.len() ==> #[trigger] store.comments@[j].id
                            == pre[j].id);
                }
                Ok(c)
            },
        }
    }

    /// Deletes the comment with the given id; it is an error if no such
    /// comment exists.
    pub fn delete_comment(store: &mut Store, id: i32) -> (r: Result<DeleteResult, Error>)
        requires
            old(store).wf(),
        ensures
            final(store).wf(),
            final(store).users == old(store).users,
            final(store).posts == old(store).posts,
            final(store).next_comment_id == old(store).next_comment_id,
            !has_comment(old(store).comments@, id as int) ==> (r matches Err(e) && e matches
                Error::NotFound(m) && m@ == "Cannot find comment."@ && *final(store) == *old(store)),
            has_comment(old(store).comments@, id as int) ==> (r matches Ok(d) && d.rows_affected
                == 1 && !has_comment(final(store).comments@, id as int) && comments_removed(
                old(store).comments@,
                final(store).comments@,
                id,
            )),
    {
        match comment_index_of(&store.comments, id) {
            None => Err(Error::NotFound("Cannot find comment.".to_owned())),
            Some(i) => {
                let ghost pre = store.comments@;
                store.comments.remove(i);
                proof {
                    pre.remove_ensures(i as int);
                    assert(store.comments@ =~= pre.remove(i as int));
                    assert(comments_removed(pre, store.comments@, id));
                    assert(forall|j: int|
                        0 <= j < i ==> #[trigger] store.comments@[j] == pre[j]);
                    assert(forall|j: int|
                        i <= j < store.comments@.len() ==> #[trigger] store.comments@[j] == pre[
                            j + 1
                        ]);
                }
                Ok(DeleteResult { rows_affected: 1 })
            },
        }
    }
}

} // verus!
