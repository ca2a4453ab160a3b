use blog_api::comment;
use blog_api::delete::Delete;
use blog_api::errors::Error;
use blog_api::mutation::Mutation;
use blog_api::post;
use blog_api::query::Query;
use blog_api::save::Save;
use blog_api::store::Store;
use blog_api::user;

fn sample_user(name: &str, email: &str) -> user::Model {
    user::Model {
        id: 0,
        name: name.to_string(),
        email: email.to_string(),
        password: "secret-hash".to_string(),
        created_at: 1_700_000_000,
        updated_at: 1_700_000_000,
    }
}

fn sample_post(user_id: i32, title: &str, body: &str) -> post::Model {
    post::Model {
        id: 0,
        user_id,
        title: title.to_string(),
        body: body.to_string(),
    }
}

#[test]
fn create_user_then_fetch_round_trip() {
    let mut store = Store::new();
    let created = Mutation::create_user(&mut store, sample_user("Ada", "ada@example.com"))
        .expect("create should succeed");
    assert_eq!(created.id, 1);
    let fetched = Query::find_user_by_id(&store, created.id).expect("user should be found");
    assert_eq!(fetched, created);
    assert_eq!(fetched.name, "Ada");
    assert_eq!(fetched.email, "ada@example.com");
    assert_eq!(fetched.password, "secret-hash");
    assert_eq!(fetched.created_at, 1_700_000_000);
}

#[test]
fn create_post_then_fetch_round_trip() {
    let mut store = Store::new();
    Mutation::create_user(&mut store, sample_user("Ada", "ada@example.com")).unwrap();
    let created = Mutation::create_post(&mut store, sample_post(1, "Title", "Body")).unwrap();
    assert_eq!(created.id, 1);
    let fetched = Query::find_post_by_id(&store, created.id).expect("post should be found");
    assert_eq!(fetched, created);
    assert_eq!(fetched.title, "Title");
    assert_eq!(fetched.body, "Body");
    assert_eq!(fetched.user_id, 1);
}

#[test]
fn create_comment_then_fetch_round_trip() {
    let mut store = Store::new();
    Mutation::create_user(&mut store, sample_user("Ada", "ada@example.com")).unwrap();
    Mutation::create_post(&mut store, sample_post(1, "T", "B")).unwrap();
    let input = comment::Model {
        id: 0,
        user_id: 1,
        post_id: 1,
        content: "Nice".to_string(),
    };
    let created = Mutation::create_comment(&mut store, input).unwrap();
    let fetched = Query::find_comment_by_id(&store, created.id).expect("comment found");
    assert_eq!(fetched, created);
    assert_eq!(fetched.content, "Nice");
}

#[test]
fn delete_missing_id_is_idempotent() {
    let mut store = Store::new();
    let res = Delete::delete_user(&mut store, 42).expect("idempotent delete must succeed");
    assert_eq!(res.rows_affected, 0);
    assert_eq!(store.users.len(), 0);
}

#[test]
fn delete_existing_user_removes_one_row() {
    let mut store = Store::new();
    Mutation::create_user(&mut store, sample_user("Ada", "ada@example.com")).unwrap();
    let res = Delete::delete_user(&mut store, 1).unwrap();
    assert_eq!(res.rows_affected, 1);
    assert!(Query::find_user_by_id(&store, 1).is_none());
    // a second delete of the same id still succeeds
    let again = Delete::delete_user(&mut store, 1).unwrap();
    assert_eq!(again.rows_affected, 0);
}

#[test]
fn mutation_delete_missing_post_is_not_found() {
    let mut store = Store::new();
    let err = Mutation::delete_post(&mut store, 7).unwrap_err();
    match err {
        Error::NotFound(m) => assert_eq!(m, "Cannot find post."),
        _ => panic!("expected NotFound"),
    }
}

#[test]
fn update_post_replaces_all_fields() {
    let mut store = Store::new();
    Mutation::create_user(&mut store, sample_user("Ada", "ada@example.com")).unwrap();
    Mutation::create_post(&mut store, sample_post(1, "Old", "OldBody")).unwrap();
    let updated =
        Mutation::update_post_by_id(&mut store, 1, sample_post(1, "New", "NewBody")).unwrap();
    assert_eq!(updated.id, 1);
    assert_eq!(updated.title, "New");
    let fetched = Query::find_post_by_id(&store, 1).unwrap();
    assert_eq!(fetched.title, "New");
    assert_eq!(fetched.body, "NewBody");
}

#[test]
fn update_missing_user_is_not_found() {
    let mut store = Store::new();
    let err =
        Mutation::update_user_by_id(&mut store, 9, sample_user("X", "x@example.com")).unwrap_err();
    match err {
        Error::NotFound(m) => assert_eq!(m, "Cannot find user."),
        _ => panic!("expected NotFound"),
    }
}

#[test]
fn delete_all_posts_reports_row_count() {
    let mut store = Store::new();
    Mutation::create_user(&mut store, sample_user("Ada", "ada@example.com")).unwrap();
    Mutation::create_post(&mut store, sample_post(1, "A", "a")).unwrap();
    Mutation::create_post(&mut store, sample_post(1, "B", "b")).unwrap();
    let res = Mutation::delete_all_posts(&mut store).unwrap();
    assert_eq!(res.rows_affected, 2);
    assert_eq!(store.posts.len(), 0);
}

#[test]
fn save_user_inserts_updates_and_rejects() {
    let mut store = Store::new();
    // id 0: insert with a fresh id
    let saved = Save::save_user(&mut store, sample_user("Ada", "ada@example.com")).unwrap();
    assert_eq!(saved.id, 1);
    // known id: full replace
    let mut replacement = sample_user("Ada Lovelace", "ada@example.com");
    replacement.id = 1;
    let replaced = Save::save_user(&mut store, replacement).unwrap();
    assert_eq!(replaced.id, 1);
    assert_eq!(replaced.name, "Ada Lovelace");
    assert_eq!(store.users.len(), 1);
    // unknown non-zero id: rejected
    let mut missing = sample_user("Ghost", "ghost@example.com");
    missing.id = 99;
    let err = Save::save_user(&mut store, missing).unwrap_err();
    match err {
        Error::NotFound(m) => assert_eq!(m, "Cannot find user."),
        _ => panic!("expected NotFound"),
    }
}

#[test]
fn find_user_by_email_finds_first_match() {
    let mut store = Store::new();
    Mutation::create_user(&mut store, sample_user("Ada", "ada@example.com")).unwrap();
    Mutation::create_user(&mut store, sample_user("Bob", "bob@example.com")).unwrap();
    let found = Query::find_user_by_email(&store, "bob@example.com").unwrap();
    assert_eq!(found.id, 2);
    assert!(Query::find_user_by_email(&store, "none@example.com").is_none());
}

#[test]
fn statistics_counts_all_tables() {
    let mut store = Store::new();
    Mutation::create_user(&mut store, sample_user("Ada", "ada@example.com")).unwrap();
    Mutation::create_post(&mut store, sample_post(1, "T", "B")).unwrap();
    let (posts, users, comments) = Query::get_statistics(&store).unwrap();
    assert_eq!((posts, users, comments), (1, 1, 0));
}
