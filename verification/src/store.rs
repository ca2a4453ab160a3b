use vstd::prelude::*;

use crate::comment;
use crate::post;
use crate::user;

verus! {

/// Whether some row of the users table carries the given id.
pub open spec fn has_user(s: Seq<user::Model>, id: int) -> bool {
    exists|i: int| 0 <= i < s.len() && s[i].id == id
}

/// The row of the users table carrying the given id (meaningful only
/// when ids are unique and `has_user` holds).
pub open spec fn user_at(s: Seq<user::Model>, id: int) -> user::Model {
    s[choose|i: int| 0 <= i < s.len() && s[i].id == id]
}

/// Whether some row of the post table carries the given id.
pub open spec fn has_post(s: Seq<post::Model>, id: int) -> bool {
    exists|i: int| 0 <= i < s.len() && s[i].id == id
}

/// The row of the post table carrying the given id.
pub open spec fn post_at(s: Seq<post::Model>, id: int) -> post::Model {
    s[choose|i: int| 0 <= i < s.len() && s[i].id == id]
}

/// Whether some row of the comment table carries the given id.
pub open spec fn has_comment(s: Seq<comment::Model>, id: int) -> bool {
    exists|i: int| 0 <= i < s.len() && s[i].id == id
}

/// The row of the comment table carrying the given id.
pub open spec fn comment_at(s: Seq<comment::Model>, id: int) -> comment::Model {
    s[choose|i: int| 0 <= i < s.len() && s[i].id == id]
}

/// Ids appear in strictly increasing order: the table is kept sorted by
/// primary key, which also makes every id unique.
pub open spec fn user_ids_increasing(s: Seq<user::Model>) -> bool {
    forall|i: int, j: int| 0 <= i < j < s.len() ==> s[i].id < s[j].id
}

pub open spec fn post_ids_increasing(s: Seq<post::Model>) -> bool {
    forall|i: int, j: int| 0 <= i < j < s.len() ==> s[i].id < s[j].id
}

pub open spec fn comment_ids_increasing(s: Seq<comment::Model>) -> bool {
    forall|i: int, j: int| 0 <= i < j < s.len() ==> s[i].id < s[j].id
}

/// When ids are strictly increasing, the row found at an index is the
/// row that `user_at` denotes for that row's id.
pub proof fn lemma_user_at(s: Seq<user::Model>, i: int)
    requires
        user_ids_increasing(s),
        0 <= i < s.len(),
    ensures
        has_user(s, s[i].id as int),
        user_at(s, s[i].id as int) == s[i],
{
    assert(has_user(s, s[i].id as int));
    let j = choose|j: int| 0 <= j < s.len() && s[j].id == s[i].id;
    if i < j {
        assert(s[i].id < s[j].id);
    } else if j < i {
        assert(s[j].id < s[i].id);
    }
}

pub proof fn lemma_post_at(s: Seq<post::Model>, i: int)
    requires
        post_ids_increasing(s),
        0 <= i < s.len(),
    ensures
        has_post(s, s[i].id as int),
        post_at(s, s[i].id as int) == s[i],
{
    assert(has_post(s, s[i].id as int));
    let j = choose|j: int| 0 <= j < s.len() && s[j].id == s[i].id;
    if i < j {
        assert(s[i].id < s[j].id);
    } else if j < i {
        assert(s[j].id < s[i].id);
    }
}

pub proof fn lemma_comment_at(s: Seq<comment::Model>, i: int)
    requires
        comment_ids_increasing(s),
        0 <= i < s.len(),
    ensures
        has_comment(s, s[i].id as int),
        comment_at(s, s[i].id as int) == s[i],
{
    assert(has_comment(s, s[i].id as int));
    let j = choose|j: int| 0 <= j < s.len() && s[j].id == s[i].id;
    if i < j {
        assert(s[i].id < s[j].id);
    } else if j < i {
        assert(s[j].id < s[i].id);
    }
}

/// The in-memory model of the relational store: one table per entity,
/// each kept sorted by primary key, plus the next id each table will
/// assign.  The real database is outside the verified library; every
/// query and mutation below is specified against this model.
pub struct Store {
    pub users: Vec<user::Model>,
    pub posts: Vec<post::Model>,
    pub comments: Vec<comment::Model>,
    pub next_user_id: i32,
    pub next_post_id: i32,
    pub next_comment_id: i32,
}

impl Store {
    /// Well-formedness: each table is sorted by id, every id is at
    /// least 1, and the next id to assign is above every stored id.
    pub open spec fn wf(&self) -> bool {
        &&& user_ids_increasing(self.users@)
        &&& post_ids_increasing(self.posts@)
        &&& comment_ids_increasing(self.comments@)
        &&& forall|i: int| 0 <= i < self.users@.len() ==> 1 <= #[trigger] self.users@[i].id
            < self.next_user_id
        &&& forall|i: int| 0 <= i < self.posts@.len() ==> 1 <= #[trigger] self.posts@[i].id
            < self.next_post_id
        &&& forall|i: int| 0 <= i < self.comments@.len() ==> 1 <= #[trigger] self.comments@[i].id
            < self.next_comment_id
        &&& 1 <= self.next_user_id
        &&& 1 <= self.next_post_id
        &&& 1 <= self.next_comment_id
    }

    /// An empty store, ready to assign id 1 in every table.
    pub fn new() -> (r: Store)
        ensures
            r.wf(),
            r.users@.len() == 0,
            r.posts@.len() == 0,
            r.comments@.len() == 0,
            r.next_user_id == 1,
            r.next_post_id == 1,
            r.next_comment_id == 1,
    {
        Store {
            users: Vec::new(),
            posts: Vec::new(),
            comments: Vec::new(),
            next_user_id: 1,
            next_post_id: 1,
            next_comment_id: 1,
        }
    }
}

} // verus!
