use vstd::prelude::*;

use crate::comment;
use crate::errors::Error;
use crate::pagination::{num_pages, spec_num_pages, spec_page_window};
use crate::post;
use crate::store::{has_comment, has_post, has_user, comment_at, post_at, user_at, Store};
use crate::store::{lemma_comment_at, lemma_post_at, lemma_user_at};
use crate::user;

verus! {

/// The first user row carrying the given email, scanning in table order.
pub open spec fn spec_find_user_by_email(s: Seq<user::Model>, email: Seq<char>) -> Option<
    user::Model,
>
    decreases s.len(),
{
    if s.len() == 0 {
        None
    } else if s[0].email@ == email {
        Some(s[0])
    } else {
        spec_find_user_by_email(s.skip(1), email)
    }
}

/// `spec_find_user_by_email` finds a row exactly when some row carries
/// the email, and what it finds is such a row.
pub proof fn lemma_find_user_by_email(s: Seq<user::Model>, email: Seq<char>)
    ensures
        spec_find_user_by_email(s, email) is Some <==> exists|i: int|
            0 <= i < s.len() && s[i].email@ == email,
        spec_find_user_by_email(s, email) matches Some(u) ==> u.email@ == email && exists|i: int|
            0 <= i < s.len() && s[i] == u,
    decreases s.len(),
{
    if s.len() > 0 {
        if s[0].email@ == email {
        } else {
            lemma_find_user_by_email(s.skip(1), email);
            if spec_find_user_by_email(s, email) is Some {
                let j = choose|j: int|
                    0 <= j < s.skip(1).len() && s.skip(1)[j].email@ == email;
                assert(s[j + 1].email@ == email);
                let u = spec_find_user_by_email(s.skip(1), email).unwrap();
                let k = choose|k: int| 0 <= k < s.skip(1).len() && s.skip(1)[k] == u;
                assert(s[k + 1] == u);
            } else {
                assert forall|i: int| 0 <= i < s.len() implies s[i].email@ != email by {
                    if i > 0 {
                        assert(s.skip(1)[i - 1] == s[i]);
                    }
                }
            }
        }
    }
}

/// Whether a post matches the search keyword: the keyword occurs in the
/// title or in the body.
pub open spec fn spec_post_matches(p: post::Model, kw: Seq<char>) -> bool {
    crate::strutil::spec_contains(p.title@, kw) || crate::strutil::spec_contains(p.body@, kw)
}

/// Read-side service operations, specified against the store model.
pub struct Query;

impl Query {
    /// The post with the given id, or `None` when no row matches.
    pub fn find_post_by_id(store: &Store, id: i32) -> (r: Option<post::Model>)
        requires
            store.wf(),
        ensures
            has_post(store.posts@, id as int) ==> r == Some(post_at(store.posts@, id as int)),
            !has_post(store.posts@, id as int) ==> r is None,
    {
        let n = store.posts.len();
        let mut i: usize = 0;
        while i < n
            invariant
                n == store.posts@.len(),
                0 <= i <= n,
                store.wf(),
                forall|j: int| 0 <= j < i ==> #[trigger] store.posts@[j].id != id,
            decreases n - i,
        {
            if store.posts[i].id == id {
                proof {
                    lemma_post_at(store.posts@, i as int);
                }
                return Some(store.posts[i].clone());
            }
            i += 1;
        }
        None
    }

    /// The user with the given id, or `None` when no row matches.
    pub fn find_user_by_id(store: &Store, id: i32) -> (r: Option<user::Model>)
        requires
            store.wf(),
        ensures
            has_user(store.users@, id as int) ==> r == Some(user_at(store.users@, id as int)),
            !has_user(store.users@, id as int) ==> r is None,
    {
        let n = store.users.len();
        let mut i: usize = 0;
        while i < n
            invariant
                n == store.users@.len(),
                0 <= i <= n,
                store.wf(),
                forall|j: int| 0 <= j < i ==> #[trigger] store.users@[j].id != id,
            decreases n - i,
        {
            if store.users[i].id == id {
                proof {
                    lemma_user_at(store.users@, i as int);
                }
                return Some(store.users[i].clone());
            }
            i += 1;
        }
        None
    }

    /// The comment with the given id, or `None` when no row matches.
    pub fn find_comment_by_id(store: &Store, id: i32) -> (r: Option<comment::Model>)
        requires
            store.wf(),
        ensures
            has_comment(store.comments@, id as int) ==> r == Some(
                comment_at(store.comments@, id as int),
            ),
            !has_comment(store.comments@, id as int) ==> r is None,
    {
        let n = store.comments.len();
        let mut i: usize = 0;
        while i < n
            invariant
                n == store.comments@.len(),
                0 <= i <= n,
                store.wf(),
                forall|j: int| 0 <= j < i ==> #[trigger] store.comments@[j].id != id,
            decreases n - i,
        {
            if store.comments[i].id == id {
                proof {
                    lemma_comment_at(store.comments@, i as int);
                }
                return Some(store.comments[i].clone());
            }
            i += 1;
        }
        None
    }

    /// The first user carrying the given email, in table order.
    pub fn find_user_by_email(store: &Store, email: &str) -> (r: Option<user::Model>)
        requires
            store.wf(),
        ensures
            r == spec_find_user_by_email(store.users@, email@),
            r is Some <==> exists|i: int|
                0 <= i < store.users@.len() && store.users@[i].email@ == email@,
    {
        proof {
            lemma_find_user_by_email(store.users@, email@);
        }
        let s = &store.users;
        let n = s.len();
        let mut i: usize = 0;
        proof {
            assert(s@.skip(0) =~= s@);
        }
        while i < n
            invariant
                s@ == store.users@,
                n == s@.len(),
                0 <= i <= n,
                spec_find_user_by_email(s@, email@) == spec_find_user_by_email(
                    s@.skip(i as int),
                    email@,
                ),
                forall|j: int| 0 <= j < i ==> #[trigger] s@[j].email@ != email@,
            decreases n - i,
        {
            assert(s@.skip(i as int)[0] == s@[i as int]);
            if crate::strutil::str_eq(s[i].email.as_str(), email) {
                proof {
                    lemma_find_user_by_email(store.users@, email@);
                    assert(spec_find_user_by_email(s@.skip(i as int), email@) == Some(
                        s@[i as int],
                    ));
                }
                return Some(s[i].clone());
            }
            proof {
                assert(s@.skip(i as int).skip(1) =~= s@.skip(i + 1));
            }
            i += 1;
        }
        proof {
            assert(s@.skip(n as int) =~= Seq::<user::Model>::empty());
        }
        None
    }

    /// One page of the post table in ascending id order, together with
    /// the total page count.  Pages are 1-indexed.
    pub fn find_posts_in_page(store: &Store, page: u64, size: u64) -> (r: Result<
        (Vec<post::Model>, u64),
        Error,
    >)
        requires
            store.wf(),
            page >= 1,
            size >= 1,
        ensures
            r matches Ok((items, pages)) && items@ == spec_page_window(
                store.posts@,
                page as int,
                size as int,
            ) && pages == spec_num_pages(store.posts@.len() as int, size as int),
    {
        let items = posts_page(&store.posts, page, size);
        let pages = num_pages(store.posts.len() as u64, size);
        Ok((items, pages))
    }

    /// One page of the users table in ascending id order, together with
    /// the total page count.  Pages are 1-indexed.
    pub fn find_users_in_page(store: &Store, page: u64, users_per_page: u64) -> (r: Result<
        (Vec<user::Model>, u64),
        Error,
    >)
        requires
            store.wf(),
            page >= 1,
            users_per_page >= 1,
        ensures
            r matches Ok((items, pages)) && items@ == spec_page_window(
                store.users@,
                page as int,
                users_per_page as int,
            ) && pages == spec_num_pages(store.users@.len() as int, users_per_page as int),
    {
        let items = users_page(&store.users, page, users_per_page);
        let pages = num_pages(store.users.len() as u64, users_per_page);
        Ok((items, pages))
    }

    /// Every post owned by the given user, in table (ascending id) order.
    pub fn find_posts_by_user_id(store: &Store, user_id: i32) -> (r: Result<
        Vec<post::Model>,
        Error,
    >)
        requires
            store.wf(),
        ensures
            r matches Ok(v) && v@ == store.posts@.filter(
                |p: post::Model| p.user_id == user_id,
            ),
    {
        broadcast use Seq::lemma_filter_push;

        let pred = Ghost(|p: post::Model| p.user_id == user_id);
        let n = store.posts.len();
        let mut out: Vec<post::Model> = Vec::new();
        let mut i: usize = 0;
        proof {
            assert(store.posts@.take(0) =~= Seq::<post::Model>::empty());
            reveal(Seq::filter);
        }
        while i < n
            invariant
                n == store.posts@.len(),
                0 <= i <= n,
                out@ == store.posts@.take(i as int).filter(pred@),
                pred@ == (|p: post::Model| p.user_id == user_id),
            decreases n - i,
        {
            proof {
                store.posts@.take(i as int).lemma_filter_push(store.posts@[i as int], pred@);
                assert(store.posts@.take(i + 1) =~= store.posts@.take(i as int).push(
                    store.posts@[i as int],
                ));
            }
            if store.posts[i].user_id == user_id {
                out.push(store.posts[i].clone());
            }
            i += 1;
        }
        proof {
            assert(store.posts@.take(n as int) =~= store.posts@);
        }
        Ok(out)
    }

    /// One page of the comments under the given post, in ascending id
    /// order, together with the total page count over those comments.
    pub fn find_comments_by_post_id_in_page(
        store: &Store,
        post_id: i32,
        page: u64,
        comments_per_page: u64,
    ) -> (r: Result<(Vec<comment::Model>, u64), Error>)
        requires
            store.wf(),
            page >= 1,
            comments_per_page >= 1,
        ensures
            r matches Ok((items, pages)) && items@ == spec_page_window(
                store.comments@.filter(|c: comment::Model| c.post_id == post_id),
                page as int,
                comments_per_page as int,
            ) && pages == spec_num_pages(
                store.comments@.filter(|c: comment::Model| c.post_id == post_id).len() as int,
                comments_per_page as int,
            ),
    {
        broadcast use Seq::lemma_filter_push;

        let pred = Ghost(|c: comment::Model| c.post_id == post_id);
        let n = store.comments.len();
        let mut matching: Vec<comment::Model> = Vec::new();
        let mut i: usize = 0;
        proof {
            assert(store.comments@.take(0) =~= Seq::<comment::Model>::empty());
            reveal(Seq::filter);
        }
        while i < n
            invariant
                n == store.comments@.len(),
                0 <= i <= n,
                matching@ == store.comments@.take(i as int).filter(pred@),
                pred@ == (|c: comment::Model| c.post_id == post_id),
            decreases n - i,
        {
            proof {
                store.comments@.take(i as int).lemma_filter_push(
                    store.comments@[i as int],
                    pred@,
                );
                assert(store.comments@.take(i + 1) =~= store.comments@.take(i as int).push(
                    store.comments@[i as int],
                ));
            }
            if store.comments[i].post_id == post_id {
                matching.push(store.comments[i].clone());
            }
            i += 1;
        }
        proof {
            assert(store.comments@.take(n as int) =~= store.comments@);
        }
        let items = comments_page(&matching, page, comments_per_page);
        let pages = num_pages(matching.len() as u64, comments_per_page);
        Ok((items, pages))
    }

    /// One page of the posts matching the keyword, in descending id
    /// order, together with the total page count over the matches.  The
    /// caller is responsible for rejecting empty keywords first.
    pub fn search_posts(store: &Store, keyword: &str, page: u64, posts_per_page: u64) -> (r:
        Result<(Vec<post::Model>, u64), Error>)
        requires
            store.wf(),
            page >= 1,
            posts_per_page >= 1,
        ensures
            r matches Ok((items, pages)) && items@ == spec_page_window(
                store.posts@.filter(|p: post::Model| spec_post_matches(p, keyword@)).reverse(),
                page as int,
                posts_per_page as int,
            ) && pages == spec_num_pages(
                store.posts@.filter(|p: post::Model| spec_post_matches(p, keyword@)).len() as int,
                posts_per_page as int,
            ),
    {
        let pred = Ghost(|p: post::Model| spec_post_matches(p, keyword@));
        let n = store.posts.len();
        let mut fwd: Vec<post::Model> = Vec::new();
        let mut i: usize = 0;
        proof {
            assert(store.posts@.take(0) =~= Seq::<post::Model>::empty());
            reveal(Seq::filter);
        }
        while i < n
            invariant
                n == store.posts@.len(),
                0 <= i <= n,
                fwd@ == store.posts@.take(i as int).filter(pred@),
                pred@ == (|p: post::Model| spec_post_matches(p, keyword@)),
            decreases n - i,
        {
            proof {
                store.posts@.take(i as int).lemma_filter_push(store.posts@[i as int], pred@);
                assert(store.posts@.take(i + 1) =~= store.posts@.take(i as int).push(
                    store.posts@[i as int],
                ));
            }
            let hit = crate::strutil::str_contains(store.posts[i].title.as_str(), keyword)
                || crate::strutil::str_contains(store.posts[i].body.as_str(), keyword);
            if hit {
                fwd.push(store.posts[i].clone());
            }
            i += 1;
        }
        proof {
            assert(store.posts@.take(n as int) =~= store.posts@);
        }
        // descending id order: reverse the ascending matches
        let m = fwd.len();
        let mut rev: Vec<post::Model> = Vec::new();
        let mut k: usize = 0;
        while k < m
            invariant
                m == fwd@.len(),
                0 <= k <= m,
                rev@.len() == k,
                forall|j: int| 0 <= j < k ==> rev@[j] == fwd@[m - 1 - j],
            decreases m - k,
        {
            rev.push(fwd[m - 1 - k].clone());
            k += 1;
        }
        proof {
            assert(rev@ =~= fwd@.reverse());
        }
        let items = posts_page(&rev, page, posts_per_page);
        let pages = num_pages(m as u64, posts_per_page);
        Ok((items, pages))
    }

    /// Row counts of the three tables: posts, users, comments.
    pub fn get_statistics(store: &Store) -> (r: Result<(u64, u64, u64), Error>)
        requires
            store.wf(),
        ensures
            r matches Ok(t) && t.0 == store.posts@.len() && t.1 == store.users@.len() && t.2
                == store.comments@.len(),
    {
        Ok((store.posts.len() as u64, store.users.len() as u64, store.comments.len() as u64))
    }
}

/// Copies the rows of page `page` (at `size` rows per page) out of `v`.
fn posts_page(v: &Vec<post::Model>, page: u64, size: u64) -> (r: Vec<post::Model>)
    requires
        page >= 1,
        size >= 1,
    ensures
        r@ == spec_page_window(v@, page as int, size as int),
{
    let len: usize = v.len();
    let p1: u128 = (page - 1) as u128;
    let sz: u128 = size as u128;
    proof {
        assert(p1 * sz <= 0xFFFF_FFFF_FFFF_FFFFu128 * 0xFFFF_FFFF_FFFF_FFFFu128)
            by (nonlinear_arith)
            requires
                0 <= p1 <= 0xFFFF_FFFF_FFFF_FFFFu128,
                0 <= sz <= 0xFFFF_FFFF_FFFF_FFFFu128,
        ;
    }
    let lo128: u128 = p1 * sz;
    if lo128 >= len as u128 {
        let r: Vec<post::Model> = Vec::new();
        proof {
            assert(r@ =~= spec_page_window(v@, page as int, size as int));
        }
        r
    } else {
        let lo: usize = lo128 as usize;
        let rem: usize = len - lo;
        let take: usize = if (size as u128) <= (rem as u128) {
            size as usize
        } else {
            rem
        };
        let mut out: Vec<post::Model> = Vec::new();
        let mut k: usize = 0;
        while k < take
            invariant
                len == v@.len(),
                lo + take <= len,
                0 <= k <= take,
                out@ =~= v@.subrange(lo as int, lo + k),
            decreases take - k,
        {
            out.push(v[lo + k].clone());
            proof {
                assert(out@ =~= v@.subrange(lo as int, lo + k + 1));
            }
            k += 1;
        }
        proof {
            assert(out@ =~= spec_page_window(v@, page as int, size as int));
        }
        out
    }
}

/// Copies the rows of page `page` (at `size` rows per page) out of `v`.
fn users_page(v: &Vec<user::Model>, page: u64, size: u64) -> (r: Vec<user::Model>)
    requires
        page >= 1,
        size >= 1,
    ensures
        r@ == spec_page_window(v@, page as int, size as int),
{
    let len: usize = v.len();
    let p1: u128 = (page - 1) as u128;
    let sz: u128 = size as u128;
    proof {
        assert(p1 * sz <= 0xFFFF_FFFF_FFFF_FFFFu128 * 0xFFFF_FFFF_FFFF_FFFFu128)
            by (nonlinear_arith)
            requires
                0 <= p1 <= 0xFFFF_FFFF_FFFF_FFFFu128,
                0 <= sz <= 0xFFFF_FFFF_FFFF_FFFFu128,
        ;
    }
    let lo128: u128 = p1 * sz;
    if lo128 >= len as u128 {
        let r: Vec<user::Model> = Vec::new();
        proof {
            assert(r@ =~= spec_page_window(v@, page as int, size as int));
        }
        r
    } else {
        let lo: usize = lo128 as usize;
        let rem: usize = len - lo;
        let take: usize = if (size as u128) <= (rem as u128) {
            size as usize
        } else {
            rem
        };
        let mut out: Vec<user::Model> = Vec::new();
        let mut k: usize = 0;
        while k < take
            invariant
                len == v@.len(),
                lo + take <= len,
                0 <= k <= take,
                out@ =~= v@.subrange(lo as int, lo + k),
            decreases take - k,
        {
            out.push(v[lo + k].clone());
            proof {
                assert(out@ =~= v@.subrange(lo as int, lo + k + 1));
            }
            k += 1;
        }
        proof {
            assert(out@ =~= spec_page_window(v@, page as int, size as int));
        }
        out
    }
}

/// Copies the rows of page `page` (at `size` rows per page) out of `v`.
fn comments_page(v: &Vec<comment::Model>, page: u64, size: u64) -> (r: Vec<comment::Model>)
    requires
        page >= 1,
        size >= 1,
    ensures
        r@ == spec_page_window(v@, page as int, size as int),
{
    let len: usize = v.len();
    let p1: u128 = (page - 1) as u128;
    let sz: u128 = size as u128;
    proof {
        assert(p1 * sz <= 0xFFFF_FFFF_FFFF_FFFFu128 * 0xFFFF_FFFF_FFFF_FFFFu128)
            by (nonlinear_arith)
            requires
                0 <= p1 <= 0xFFFF_FFFF_FFFF_FFFFu128,
                0 <= sz <= 0xFFFF_FFFF_FFFF_FFFFu128,
        ;
    }
    let lo128: u128 = p1 * sz;
    if lo128 >= len as u128 {
        let r: Vec<comment::Model> = Vec::new();
        proof {
            assert(r@ =~= spec_page_window(v@, page as int, size as int));
        }
        r
    } else {
        let lo: usize = lo128 as usize;
        let rem: usize = len - lo;
        let take: usize = if (size as u128) <= (rem as u128) {
            size as usize
        } else {
            rem
        };
        let mut out: Vec<comment::Model> = Vec::new();
        let mut k: usize = 0;
        while k < take
            invariant
                len == v@.len(),
                lo + take <= len,
                0 <= k <= take,
                out@ =~= v@.subrange(lo as int, lo + k),
            decreases take - k,
        {
            out.push(v[lo + k].clone());
            proof {
                assert(out@ =~= v@.subrange(lo as int, lo + k + 1));
            }
            k += 1;
        }
        proof {
            assert(out@ =~= spec_page_window(v@, page as int, size as int));
        }
        out
    }
}

} // verus!
