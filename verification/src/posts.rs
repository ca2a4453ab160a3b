use vstd::prelude::*;

use crate::mutation::{posts_removed, Mutation};
use crate::pagination::{spec_num_pages, spec_page_window};
use crate::post;
use crate::query::{spec_post_matches, Query};
use crate::request::PageParams;
use crate::response::{ApiResponse, PageRes};
use crate::store::{has_post, has_user, post_at, Store};
use crate::strutil::spec_trimmed;

verus! {

/// Search query parameters: the keyword plus pagination.
#[derive(Debug)]
pub struct SearchParams {
    pub q: String,
    pub pagination: PageParams,
}

/// Row counts shown by the statistics endpoint.
#[derive(Debug, PartialEq, Eq, Clone, Copy, Structural)]
pub struct Statistics {
    pub total_posts: u64,
    pub total_users: u64,
    pub total_comments: u64,
}

/// One page of posts in ascending id order, wrapped in the envelope.
/// A zero page or size is rejected before the store is consulted.
pub fn list(store: &Store, page_params: &PageParams) -> (r: Result<
    ApiResponse<PageRes<Vec<post::Model>>>,
    (u16, ApiResponse<()>),
>)
    requires
        store.wf(),
    ensures
        page_params.spec_page() >= 1 && page_params.spec_size(10) >= 1 ==> (r matches Ok(env)
            && env.code == 200 && env.message@ == "Success"@ && (env.data matches Some(pr)
            && pr.data@ == spec_page_window(
            store.posts@,
            page_params.spec_page() as int,
            page_params.spec_size(10) as int,
        ) && pr.total == spec_num_pages(
            store.posts@.len() as int,
            page_params.spec_size(10) as int,
        ))),
        page_params.spec_page() == 0 || page_params.spec_size(10) == 0 ==> (r matches Err(t)
            && t.0 == 400 && t.1.code == 400),
{
    let page = page_params.page_or_default();
    let size = page_params.size_or_default(10);
    if page == 0 || size == 0 {
        return Err(
            (
                400,
                ApiResponse {
                    code: 400,
                    message: "Page and size must be at least 1".to_owned(),
                    data: None,
                },
            ),
        );
    }
    match Query::find_posts_in_page(store, page, size) {
        Ok((items, total)) => Ok(
            ApiResponse::success_with_data(PageRes { data: items, total }),
        ),
        Err(e) => {
            let st = e.status_code();
            Err((st, ApiResponse { code: st, message: e.message(), data: None }))
        },
    }
}

/// Creates a post after checking that the owning user exists; a
/// missing owner is rejected before any row is written.
pub fn create(store: &mut Store, input: post::Model) -> (r: Result<
    ApiResponse<post::Model>,
    (u16, ApiResponse<()>),
>)
    requires
        old(store).wf(),
    ensures
        final(store).wf(),
        final(store).users == old(store).users,
        final(store).comments == old(store).comments,
        !has_user(old(store).users@, input.user_id as int) ==> (r matches Err(t) && t.0 == 404
            && t.1.code == 404 && t.1.message@ == "User not found"@ && *final(store) == *old(
            store,
        )),
        has_user(old(store).users@, input.user_id as int) && old(store).next_post_id < i32::MAX
            ==> (r matches Ok(env) && env.code == 200 && env.message@ == "Success"@ && (
        env.data matches Some(p) && p.id == old(
            store,
        ).next_post_id && p.title == input.title && p.body == input.body && p.user_id
            == input.user_id && final(store).posts@ == old(store).posts@.push(p) && has_post(
            final(store).posts@,
            p.id as int,
        ) && post_at(final(store).posts@, p.id as int) == p)),
        has_user(old(store).users@, input.user_id as int) && old(store).next_post_id == i32::MAX
            ==> (r matches Err(t) && t.0 == 500 && *final(store) == *old(store)),
{
    match Query::find_user_by_id(store, input.user_id) {
        None => Err(
            (
                404,
                ApiResponse { code: 404, message: "User not found".to_owned(), data: None },
            ),
        ),
        Some(_) => {
            match Mutation::create_post(store, input) {
                Ok(p) => {
                    proof {
                        crate::store::lemma_post_at(
                            store.posts@,
                            store.posts@.len() as int - 1,
                        );
                    }
                    Ok(ApiResponse::success_with_data(p))
                },
                Err(e) => {
                    let st = e.status_code();
                    Err((st, ApiResponse { code: st, message: e.message(), data: None }))
                },
            }
        },
    }
}

/// Deletes a post by id; a missing id is an error.
pub fn delete(store: &mut Store, id: i32) -> (r: Result<
    ApiResponse<()>,
    (u16, ApiResponse<()>),
>)
    requires
        old(store).wf(),
    ensures
        final(store).wf(),
        final(store).users == old(store).users,
        final(store).comments == old(store).comments,
        final(store).next_post_id == old(store).next_post_id,
        has_post(old(store).posts@, id as int) ==> (r matches Ok(env) && env.code == 200
            && env.message@ == "Post deleted successfully"@ && !has_post(
            final(store).posts@,
            id as int,
        ) && posts_removed(old(store).posts@, final(store).posts@, id)),
        !has_post(old(store).posts@, id as int) ==> (r matches Err(t) && t.0 == 404 && t.1.code
            == 404 && t.1.message@ == "Cannot find post."@ && *final(store) == *old(store)),
{
    match Mutation::delete_post(store, id) {
        Ok(_) => Ok(
            ApiResponse::<()>::success_with_message("Post deleted successfully".to_owned()),
        ),
        Err(e) => {
            let st = e.status_code();
            Err((st, ApiResponse { code: st, message: e.message(), data: None }))
        },
    }
}

/// Looks a post up for diagnostics and reports a fixed success value;
/// the lookup's outcome is deliberately not reflected in the response.
pub fn show_span(store: &Store, id: i32) -> (r: Result<
    ApiResponse<i32>,
    (u16, ApiResponse<i32>),
>)
    requires
        store.wf(),
    ensures
        r matches Ok(env) && env.code == 200 && env.message@ == "Success"@ && env.data
            == Some(1i32),
{
    let _found = Query::find_post_by_id(store, id);
    Ok(ApiResponse::success_with_data(1))
}

/// Every post of the given user, after checking the user exists.
pub fn list_by_user(store: &Store, user_id: i32) -> (r: Result<
    ApiResponse<Vec<post::Model>>,
    (u16, ApiResponse<Vec<post::Model>>),
>)
    requires
        store.wf(),
    ensures
        !has_user(store.users@, user_id as int) ==> (r matches Err(t) && t.0 == 404 && t.1.code
            == 404 && t.1.message@ == "User not found"@),
        has_user(store.users@, user_id as int) ==> (r matches Ok(env) && env.code == 200
            && env.message@ == "Success"@ && (env.data matches Some(v) && v@
            == store.posts@.filter(
            |p: post::Model| p.user_id == user_id,
        ))),
{
    match Query::find_user_by_id(store, user_id) {
        None => Err(
            (
                404,
                ApiResponse { code: 404, message: "User not found".to_owned(), data: None },
            ),
        ),
        Some(_) => {
            match Query::find_posts_by_user_id(store, user_id) {
                Ok(posts) => Ok(ApiResponse::success_with_data(posts)),
                Err(e) => {
                    let st = e.status_code();
                    Err((st, ApiResponse { code: st, message: e.message(), data: None }))
                },
            }
        },
    }
}

/// Searches posts by keyword.  An empty or whitespace-only keyword is
/// rejected before the store is consulted.
pub fn search(store: &Store, params: &SearchParams) -> (r: Result<
    ApiResponse<Vec<post::Model>>,
    (u16, ApiResponse<Vec<post::Model>>),
>)
    requires
        store.wf(),
    ensures
        spec_trimmed(params.q@).len() == 0 ==> (r matches Err(t) && t.0 == 400 && t.1.code
            == 400 && t.1.message@ == "Search keyword is required"@),
        spec_trimmed(params.q@).len() > 0 && params.pagination.spec_page() >= 1
            && params.pagination.spec_size(5) >= 1 ==> (r matches Ok(env) && env.code == 200
            && env.message@ == "Success"@ && (env.data matches Some(v) && v@ == spec_page_window(
            store.posts@.filter(
                |p: post::Model| spec_post_matches(p, spec_trimmed(params.q@)),
            ).reverse(),
            params.pagination.spec_page() as int,
            params.pagination.spec_size(5) as int,
        ))),
        spec_trimmed(params.q@).len() > 0 && (params.pagination.spec_page() == 0
            || params.pagination.spec_size(5) == 0) ==> (r matches Err(t) && t.0 == 400
            && t.1.code == 400),
{
    let keyword = crate::strutil::trim(params.q.as_str());
    if keyword.as_str().unicode_len() == 0 {
        return Err(
            (
                400,
                ApiResponse {
                    code: 400,
                    message: "Search keyword is required".to_owned(),
                    data: None,
                },
            ),
        );
    }
    let page = params.pagination.page_or_default();
    let posts_per_page = params.pagination.size_or_default(5);
    if page == 0 || posts_per_page == 0 {
        return Err(
            (
                400,
                ApiResponse {
                    code: 400,
                    message: "Page and size must be at least 1".to_owned(),
                    data: None,
                },
            ),
        );
    }
    match Query::search_posts(store, keyword.as_str(), page, posts_per_page) {
        Ok((items, _num_pages)) => Ok(ApiResponse::success_with_data(items)),
        Err(e) => {
            let st = e.status_code();
            Err((st, ApiResponse { code: st, message: e.message(), data: None }))
        },
    }
}

/// Row counts of the three tables, wrapped in the envelope.
pub fn statistics(store: &Store) -> (r: Result<
    ApiResponse<Statistics>,
    (u16, ApiResponse<Statistics>),
>)
    requires
        store.wf(),
    ensures
        r matches Ok(env) && env.code == 200 && env.message@ == "Success"@ && (env.data
            matches Some(s) && s.total_posts
            == store.posts@.len() && s.total_users == store.users@.len() && s.total_comments
            == store.comments@.len()),
{
    match Query::get_statistics(store) {
        Ok((total_posts, total_users, total_comments)) => {
            let stats = Statistics { total_posts, total_users, total_comments };
            Ok(ApiResponse::success_with_data(stats))
        },
        Err(e) => {
            let st = e.status_code();
            Err((st, ApiResponse { code: st, message: e.message(), data: None }))
        },
    }
}

} // verus!
