use vstd::prelude::*;

use crate::comment;
use crate::mutation::{comments_removed, comments_updated, Mutation};
use crate::pagination::spec_page_window;
use crate::query::Query;
use crate::request::PageParams;
use crate::response::ApiResponse;
use crate::store::{has_comment, has_post, has_user, user_at, Store};
use crate::user;

verus! {

/// A comment joined with its author's display name.
#[derive(Debug)]
pub struct CommentWithAuthor {
    pub comment: comment::Model,
    pub author_name: String,
}

impl Clone for CommentWithAuthor {
    fn clone(&self) -> (res: Self)
        ensures
            res == *self,
    {
        CommentWithAuthor {
            comment: self.comment.clone(),
            author_name: self.author_name.clone(),
        }
    }
}

/// The display name shown for a comment author: the user's name, or
/// `Unknown` when no user carries the id.
pub open spec fn spec_author_name(users: Seq<user::Model>, user_id: i32) -> Seq<char> {
    if has_user(users, user_id as int) {
        user_at(users, user_id as int).name@
    } else {
        "Unknown"@
    }
}

/// One page of a post's comments in ascending id order, each joined
/// with its author's name.
pub fn list(store: &Store, post_id: i32, params: &PageParams) -> (r: Result<
    ApiResponse<Vec<CommentWithAuthor>>,
    (u16, ApiResponse<Vec<CommentWithAuthor>>),
>)
    requires
        store.wf(),
    ensures
        params.spec_page() >= 1 && params.spec_size(5) >= 1 ==> (r matches Ok(env) && env.code
            == 200 && env.message@ == "Success"@ && (env.data matches Some(v) && {
            let window = spec_page_window(
                store.comments@.filter(|c: comment::Model| c.post_id == post_id),
                params.spec_page() as int,
                params.spec_size(5) as int,
            );
            v@.len() == window.len() && forall|k: int|
                0 <= k < v@.len() ==> (#[trigger] v@[k]).comment == window[k]
                    && v@[k].author_name@ == spec_author_name(store.users@, window[k].user_id)
        })),
        params.spec_page() == 0 || params.spec_size(5) == 0 ==> (r matches Err(t) && t.0 == 400
            && t.1.code == 400),
{
    let page = params.page_or_default();
    let comments_per_page = params.size_or_default(5);
    if page == 0 || comments_per_page == 0 {
        return Err(
            (
                400,
                ApiResponse {
                    code: 400,
                    message: "Page and size must be at least 1".to_owned(),
                    data: None,
                },
            ),
        );
    }
    match Query::find_comments_by_post_id_in_page(store, post_id, page, comments_per_page) {
        Ok((comments, _num_pages)) => {
            let n = comments.len();
            let mut with_author: Vec<CommentWithAuthor> = Vec::new();
            let mut i: usize = 0;
            while i < n
                invariant
                    store.wf(),
                    n == comments@.len(),
                    0 <= i <= n,
                    with_author@.len() == i,
                    forall|k: int|
                        0 <= k < i ==> (#[trigger] with_author@[k]).comment == comments@[k]
                            && with_author@[k].author_name@ == spec_author_name(
                            store.users@,
                            comments@[k].user_id,
                        ),
                decreases n - i,
            {
                let author_name = match Query::find_user_by_id(store, comments[i].user_id) {
                    Some(author) => author.name,
                    None => "Unknown".to_owned(),
                };
                with_author.push(
                    CommentWithAuthor { comment: comments[i].clone(), author_name },
                );
                i += 1;
            }
            Ok(ApiResponse::success_with_data(with_author))
        },
        Err(e) => {
            let st = e.status_code();
            Err((st, ApiResponse { code: st, message: e.message(), data: None }))
        },
    }
}

/// Creates a comment after checking the post exists, then joins the
/// author's name onto the stored row.  A missing author is reported
/// only after the comment row is written, mirroring the sequential
/// check-then-act flow.
pub fn create(store: &mut Store, post_id: i32, input: comment::Model) -> (r: Result<
    ApiResponse<CommentWithAuthor>,
    (u16, ApiResponse<CommentWithAuthor>),
>)
    requires
        old(store).wf(),
    ensures
        final(store).wf(),
        final(store).users == old(store).users,
        final(store).posts == old(store).posts,
        !has_post(old(store).posts@, post_id as int) ==> (r matches Err(t) && t.0 == 404
            && t.1.code == 404 && t.1.message@ == "Post not found"@ && *final(store) == *old(
            store,
        )),
        has_post(old(store).posts@, post_id as int) && old(store).next_comment_id < i32::MAX
            ==> final(store).comments@.len() == old(store).comments@.len() + 1,
        has_post(old(store).posts@, post_id as int) && old(store).next_comment_id < i32::MAX
            && has_user(old(store).users@, input.user_id as int) ==> (r matches Ok(env)
            && env.code == 200 && env.message@ == "Success"@ && (env.data matches Some(cwa)
            && cwa.comment.id == old(
            store,
        ).next_comment_id && cwa.comment.content == input.content && cwa.comment.user_id
            == input.user_id && cwa.comment.post_id == input.post_id && final(store).comments@
            == old(store).comments@.push(cwa.comment) && cwa.author_name@ == user_at(
            old(store).users@,
            input.user_id as int,
        ).name@)),
        has_post(old(store).posts@, post_id as int) && old(store).next_comment_id < i32::MAX
            && !has_user(old(store).users@, input.user_id as int) ==> (r matches Err(t) && t.0
            == 404 && t.1.code == 404 && t.1.message@ == "Author not found"@),
        has_post(old(store).posts@, post_id as int) && old(store).next_comment_id == i32::MAX
            ==> (r matches Err(t) && t.0 == 500 && *final(store) == *old(store)),
{
    match Query::find_post_by_id(store, post_id) {
        None => Err(
            (
                404,
                ApiResponse { code: 404, message: "Post not found".to_owned(), data: None },
            ),
        ),
        Some(_) => {
            match Mutation::create_comment(store, input) {
                Ok(c) => {
                    match Query::find_user_by_id(store, c.user_id) {
                        Some(author) => {
                            let cwa = CommentWithAuthor {
                                comment: c,
                                author_name: author.name,
                            };
                            Ok(ApiResponse::success_with_data(cwa))
                        },
                        None => Err(
                            (
                                404,
                                ApiResponse {
                                    code: 404,
                                    message: "Author not found".to_owned(),
                                    data: None,
                                },
                            ),
                        ),
                    }
                },
                Err(e) => {
                    let st = e.status_code();
                    Err((st, ApiResponse { code: st, message: e.message(), data: None }))
                },
            }
        },
    }
}

/// Replaces a comment's fields after checking the post exists, then
/// joins the author's name onto the updated row.
pub fn update(store: &mut Store, post_id: i32, comment_id: i32, input: comment::Model) -> (r:
    Result<ApiResponse<CommentWithAuthor>, (u16, ApiResponse<CommentWithAuthor>)>)
    requires
        old(store).wf(),
    ensures
        final(store).wf(),
        final(store).users == old(store).users,
        final(store).posts == old(store).posts,
        final(store).next_comment_id == old(store).next_comment_id,
        !has_post(old(store).posts@, post_id as int) ==> (r matches Err(t) && t.0 == 404
            && t.1.code == 404 && t.1.message@ == "Post not found"@ && *final(store) == *old(
            store,
        )),
        has_post(old(store).posts@, post_id as int) && !has_comment(
            old(store).comments@,
            comment_id as int,
        ) ==> (r matches Err(t) && t.0 == 404 && t.1.code == 404 && t.1.message@
            == "Cannot find comment."@ && *final(store) == *old(store)),
        has_post(old(store).posts@, post_id as int) && has_comment(
            old(store).comments@,
            comment_id as int,
        ) && has_user(old(store).users@, input.user_id as int) ==> (r matches Ok(env)
            && env.code == 200 && env.message@ == "Success"@ && (env.data matches Some(cwa)
            && cwa.comment.id == comment_id
            && cwa.comment.content == input.content && cwa.comment.user_id == input.user_id
            && cwa.comment.post_id == input.post_id && comments_updated(
            old(store).comments@,
            final(store).comments@,
            comment_id,
            cwa.comment,
        ) && cwa.author_name@ == user_at(old(store).users@, input.user_id as int).name@)),
        has_post(old(store).posts@, post_id as int) && has_comment(
            old(store).comments@,
            comment_id as int,
        ) && !has_user(old(store).users@, input.user_id as int) ==> (r matches Err(t) && t.0
            == 404 && t.1.code == 404 && t.1.message@ == "Author not found"@),
{
    match Query::find_post_by_id(store, post_id) {
        None => Err(
            (
                404,
                ApiResponse { code: 404, message: "Post not found".to_owned(), data: None },
            ),
        ),
        Some(_) => {
            match Mutation::update_comment_by_id(store, comment_id, input) {
                Ok(c) => {
                    match Query::find_user_by_id(store, c.user_id) {
                        Some(author) => {
                            let cwa = CommentWithAuthor {
                                comment: c,
                                author_name: author.name,
                            };
                            Ok(ApiResponse::success_with_data(cwa))
                        },
                        None => Err(
                            (
                                404,
                                ApiResponse {
                                    code: 404,
                                    message: "Author not found".to_owned(),
                                    data: None,
                                },
                            ),
                        ),
                    }
                },
                Err(e) => {
                    let st = e.status_code();
                    Err((st, ApiResponse { code: st, message: e.message(), data: None }))
                },
            }
        },
    }
}

/// Deletes a comment by id; the post path parameter is not consulted.
pub fn delete(store: &mut Store, _post_id: i32, comment_id: i32) -> (r: Result<
    ApiResponse<()>,
    (u16, ApiResponse<()>),
>)
    requires
        old(store).wf(),
    ensures
        final(store).wf(),
        final(store).users == old(store).users,
        final(store).posts == old(store).posts,
        final(store).next_comment_id == old(store).next_comment_id,
        has_comment(old(store).comments@, comment_id as int) ==> (r matches Ok(env) && env.code
            == 200 && env.message@ == "Comment deleted successfully"@ && !has_comment(
            final(store).comments@,
            comment_id as int,
        ) && comments_removed(old(store).comments@, final(store).comments@, comment_id)),
        !has_comment(old(store).comments@, comment_id as int) ==> (r matches Err(t) && t.0
            == 404 && t.1.code == 404 && t.1.message@ == "Cannot find comment."@ && *final(store)
            == *old(store)),
{
    match Mutation::delete_comment(store, comment_id) {
        Ok(_) => Ok(
            ApiResponse::<()>::success_with_message("Comment deleted successfully".to_owned()),
        ),
        Err(e) => {
            let st = e.status_code();
            Err((st, ApiResponse { code: st, message: e.message(), data: None }))
        },
    }
}

} // verus!
