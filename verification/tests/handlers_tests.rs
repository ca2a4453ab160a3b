use blog_api::comment;
use blog_api::comments;
use blog_api::errors::Error;
use blog_api::mutation::Mutation;
use blog_api::password::verify_password;
use blog_api::post;
use blog_api::posts;
use blog_api::request::PageParams;
use blog_api::store::Store;
use blog_api::user;
use blog_api::users;

fn plain_user(name: &str, email: &str, password: &str) -> user::Model {
    user::Model {
        id: 0,
        name: name.to_string(),
        email: email.to_string(),
        password: password.to_string(),
        created_at: 100,
        updated_at: 100,
    }
}

fn seeded_store() -> Store {
    let mut store = Store::new();
    Mutation::create_user(&mut store, plain_user("Ada", "ada@example.com", "hash")).unwrap();
    store
}

#[test]
fn create_post_with_missing_user_is_rejected_before_write() {
    let mut store = Store::new();
    let input = post::Model {
        id: 0,
        user_id: 77,
        title: "T".to_string(),
        body: "B".to_string(),
    };
    let (status, env) = posts::create(&mut store, input).unwrap_err();
    assert_eq!(status, 404);
    assert_eq!(env.code, 404);
    assert_eq!(env.message, "User not found");
    assert_eq!(store.posts.len(), 0, "no row may be written");
}

#[test]
fn create_post_with_known_user_succeeds() {
    let mut store = seeded_store();
    let input = post::Model {
        id: 0,
        user_id: 1,
        title: "T".to_string(),
        body: "B".to_string(),
    };
    let env = posts::create(&mut store, input).unwrap();
    assert_eq!(env.code, 200);
    let created = env.data.unwrap();
    assert_eq!(created.id, 1);
    assert_eq!(created.title, "T");
    assert_eq!(store.posts.len(), 1);
}

#[test]
fn search_with_blank_keyword_is_a_validation_error() {
    let store = seeded_store();
    let params = posts::SearchParams {
        q: "   \t ".to_string(),
        pagination: PageParams { page: None, size: None },
    };
    let (status, env) = posts::search(&store, &params).unwrap_err();
    assert_eq!(status, 400);
    assert_eq!(env.code, 400);
    assert_eq!(env.message, "Search keyword is required");
}

#[test]
fn search_trims_keyword_before_matching() {
    let mut store = seeded_store();
    Mutation::create_post(
        &mut store,
        post::Model {
            id: 0,
            user_id: 1,
            title: "hello world".to_string(),
            body: "".to_string(),
        },
    )
    .unwrap();
    let params = posts::SearchParams {
        q: "  hello  ".to_string(),
        pagination: PageParams { page: None, size: None },
    };
    let env = posts::search(&store, &params).unwrap();
    assert_eq!(env.code, 200);
    assert_eq!(env.data.unwrap().len(), 1);
}

#[test]
fn search_with_unicode_whitespace_keyword_is_rejected() {
    let store = seeded_store();
    let params = posts::SearchParams {
        q: "\u{a0}\u{2003}\u{a0}".to_string(),
        pagination: PageParams { page: None, size: None },
    };
    let (status, env) = posts::search(&store, &params).unwrap_err();
    assert_eq!(status, 400);
    assert_eq!(env.message, "Search keyword is required");
}

#[test]
fn search_trims_unicode_padding_from_keyword() {
    let mut store = seeded_store();
    Mutation::create_post(
        &mut store,
        post::Model {
            id: 0,
            user_id: 1,
            title: "hello world".to_string(),
            body: "".to_string(),
        },
    )
    .unwrap();
    let params = posts::SearchParams {
        q: "\u{a0}hello\u{3000}".to_string(),
        pagination: PageParams { page: None, size: None },
    };
    let env = posts::search(&store, &params).unwrap();
    assert_eq!(env.code, 200);
    assert_eq!(env.data.unwrap().len(), 1);
}

#[test]
fn update_user_with_id_zero_is_not_found() {
    let mut store = seeded_store();
    let fresh = plain_user("New", "new@example.com", "pw");
    let (status, env) = users::update(&mut store, fresh).unwrap_err();
    assert_eq!(status, 404);
    assert_eq!(env.code, 404);
    assert_eq!(env.message, "Cannot find user.");
    assert_eq!(store.users.len(), 1, "no row may be created by update");
}

#[test]
fn list_rejects_zero_page() {
    let store = seeded_store();
    let params = PageParams { page: Some(0), size: Some(10) };
    let (status, env) = posts::list(&store, &params).unwrap_err();
    assert_eq!(status, 400);
    assert_eq!(env.code, 400);
}

#[test]
fn list_defaults_page_and_size() {
    let mut store = seeded_store();
    for k in 0..12 {
        Mutation::create_post(
            &mut store,
            post::Model {
                id: 0,
                user_id: 1,
                title: format!("t{}", k),
                body: "b".to_string(),
            },
        )
        .unwrap();
    }
    let params = PageParams { page: None, size: None };
    let env = posts::list(&store, &params).unwrap();
    let page = env.data.unwrap();
    assert_eq!(page.data.len(), 10, "default size is 10");
    assert_eq!(page.total, 2);
}

#[test]
fn create_user_hashes_password_and_rejects_duplicates() {
    let mut store = Store::new();
    let env = users::create(&mut store, plain_user("Ada", "ada@example.com", "pw123")).unwrap();
    assert_eq!(env.code, 200);
    let stored = env.data.unwrap();
    assert_ne!(stored.password, "pw123", "the clear text must not be stored");
    assert_eq!(verify_password("pw123", &stored.password), Ok(true));
    assert_eq!(verify_password("wrong", &stored.password), Ok(false));

    let (status, env2) =
        users::create(&mut store, plain_user("Imposter", "ada@example.com", "other"))
            .unwrap_err();
    assert_eq!(status, 409);
    assert_eq!(env2.code, 409);
    assert_eq!(env2.message, "User with this email already exists");
    assert_eq!(store.users.len(), 1);
}

#[test]
fn delete_user_handler_reports_success_even_for_missing_id() {
    let mut store = Store::new();
    let env = users::delete(&mut store, 5).unwrap();
    assert_eq!(env.code, 200);
    assert_eq!(env.message, "User deleted successfully");
}

#[test]
fn update_missing_user_maps_to_not_found() {
    let mut store = Store::new();
    let mut ghost_user = plain_user("Ghost", "ghost@example.com", "pw");
    ghost_user.id = 41;
    let (status, env) = users::update(&mut store, ghost_user).unwrap_err();
    assert_eq!(status, 404);
    assert_eq!(env.code, 404);
    assert_eq!(env.message, "Cannot find user.");
    assert!(store.users.is_empty());
}

#[test]
fn update_user_handler_saves_record() {
    let mut store = seeded_store();
    let mut replacement = plain_user("Ada L", "ada@example.com", "newhash");
    replacement.id = 1;
    let env = users::update(&mut store, replacement).unwrap();
    assert_eq!(env.code, 200);
    assert_eq!(env.data.unwrap().name, "Ada L");
}

#[test]
fn comment_create_rejects_missing_post() {
    let mut store = seeded_store();
    let input = comment::Model {
        id: 0,
        user_id: 1,
        post_id: 1,
        content: "hi".to_string(),
    };
    let (status, env) = comments::create(&mut store, 1, input).unwrap_err();
    assert_eq!(status, 404);
    assert_eq!(env.message, "Post not found");
    assert_eq!(store.comments.len(), 0);
}

#[test]
fn comment_create_joins_author_name() {
    let mut store = seeded_store();
    Mutation::create_post(
        &mut store,
        post::Model { id: 0, user_id: 1, title: "t".to_string(), body: "b".to_string() },
    )
    .unwrap();
    let input = comment::Model {
        id: 0,
        user_id: 1,
        post_id: 1,
        content: "hi".to_string(),
    };
    let env = comments::create(&mut store, 1, input).unwrap();
    assert_eq!(env.code, 200);
    let cwa = env.data.unwrap();
    assert_eq!(cwa.author_name, "Ada");
    assert_eq!(cwa.comment.content, "hi");
}

#[test]
fn comment_list_falls_back_to_unknown_author() {
    let mut store = seeded_store();
    Mutation::create_post(
        &mut store,
        post::Model { id: 0, user_id: 1, title: "t".to_string(), body: "b".to_string() },
    )
    .unwrap();
    // a comment whose author id matches no user
    Mutation::create_comment(
        &mut store,
        comment::Model { id: 0, user_id: 9, post_id: 1, content: "orphan".to_string() },
    )
    .unwrap();
    let params = PageParams { page: None, size: None };
    let env = comments::list(&store, 1, &params).unwrap();
    let rows = env.data.unwrap();
    assert_eq!(rows.len(), 1);
    assert_eq!(rows[0].author_name, "Unknown");
}

#[test]
fn comment_update_and_delete_follow_taxonomy() {
    let mut store = seeded_store();
    Mutation::create_post(
        &mut store,
        post::Model { id: 0, user_id: 1, title: "t".to_string(), body: "b".to_string() },
    )
    .unwrap();
    let missing = comment::Model {
        id: 0,
        user_id: 1,
        post_id: 1,
        content: "x".to_string(),
    };
    let (status, env) = comments::update(&mut store, 1, 8, missing).unwrap_err();
    assert_eq!(status, 404);
    assert_eq!(env.message, "Cannot find comment.");

    Mutation::create_comment(
        &mut store,
        comment::Model { id: 0, user_id: 1, post_id: 1, content: "old".to_string() },
    )
    .unwrap();
    let replacement = comment::Model {
        id: 0,
        user_id: 1,
        post_id: 1,
        content: "new".to_string(),
    };
    let env2 = comments::update(&mut store, 1, 1, replacement).unwrap();
    assert_eq!(env2.data.unwrap().comment.content, "new");

    let env3 = comments::delete(&mut store, 1, 1).unwrap();
    assert_eq!(env3.message, "Comment deleted successfully");
    let (status4, env4) = comments::delete(&mut store, 1, 1).unwrap_err();
    assert_eq!(status4, 404);
    assert_eq!(env4.message, "Cannot find comment.");
}

#[test]
fn list_by_user_checks_user_first() {
    let store = seeded_store();
    let (status, env) = posts::list_by_user(&store, 9).unwrap_err();
    assert_eq!(status, 404);
    assert_eq!(env.message, "User not found");
    let ok = posts::list_by_user(&store, 1).unwrap();
    assert_eq!(ok.code, 200);
    assert!(ok.data.unwrap().is_empty());
}

#[test]
fn statistics_handler_wraps_counts() {
    let mut store = seeded_store();
    Mutation::create_post(
        &mut store,
        post::Model { id: 0, user_id: 1, title: "t".to_string(), body: "b".to_string() },
    )
    .unwrap();
    let env = posts::statistics(&store).unwrap();
    let stats = env.data.unwrap();
    assert_eq!(stats.total_posts, 1);
    assert_eq!(stats.total_users, 1);
    assert_eq!(stats.total_comments, 0);
}

#[test]
fn show_span_always_reports_one() {
    let store = Store::new();
    let env = posts::show_span(&store, 123).unwrap();
    assert_eq!(env.code, 200);
    assert_eq!(env.data, Some(1));
}

#[test]
fn error_taxonomy_maps_to_status_codes() {
    let cases = vec![
        (Error::NotFound("a".to_string()), 404, "a"),
        (Error::Conflict("b".to_string()), 409, "b"),
        (Error::Validation("c".to_string()), 400, "c"),
        (Error::Storage("d".to_string()), 500, "d"),
        (Error::Conversion("e".to_string()), 500, "e"),
    ];
    for (err, status, msg) in cases {
        assert_eq!(err.status_code(), status);
        assert_eq!(err.message(), msg);
    }
}

#[test]
fn post_delete_handler_maps_not_found() {
    let mut store = seeded_store();
    let (status, env) = posts::delete(&mut store, 3).unwrap_err();
    assert_eq!(status, 404);
    assert_eq!(env.code, 404);
    assert_eq!(env.message, "Cannot find post.");
    Mutation::create_post(
        &mut store,
        post::Model { id: 0, user_id: 1, title: "t".to_string(), body: "b".to_string() },
    )
    .unwrap();
    let ok = posts::delete(&mut store, 1).unwrap();
    assert_eq!(ok.message, "Post deleted successfully");
    assert!(store.posts.is_empty());
}
