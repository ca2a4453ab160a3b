use blog_api::mutation::Mutation;
use blog_api::pagination::num_pages;
use blog_api::post;
use blog_api::query::Query;
use blog_api::store::Store;
use blog_api::user;

fn store_with_posts(n: usize) -> Store {
    let mut store = Store::new();
    Mutation::create_user(
        &mut store,
        user::Model {
            id: 0,
            name: "Ada".to_string(),
            email: "ada@example.com".to_string(),
            password: "h".to_string(),
            created_at: 0,
            updated_at: 0,
        },
    )
    .unwrap();
    for k in 0..n {
        Mutation::create_post(
            &mut store,
            post::Model {
                id: 0,
                user_id: 1,
                title: format!("post {}", k),
                body: format!("body {}", k),
            },
        )
        .unwrap();
    }
    store
}

#[test]
fn num_pages_is_ceiling_division() {
    assert_eq!(num_pages(0, 5), 0);
    assert_eq!(num_pages(1, 5), 1);
    assert_eq!(num_pages(5, 2), 3);
    assert_eq!(num_pages(10, 10), 1);
    assert_eq!(num_pages(11, 10), 2);
}

#[test]
fn page_returns_at_most_size_items() {
    let store = store_with_posts(5);
    let (items, total) = Query::find_posts_in_page(&store, 1, 2).unwrap();
    assert_eq!(items.len(), 2);
    assert_eq!(total, 3);
    assert_eq!(items[0].id, 1);
    assert_eq!(items[1].id, 2);

    let (last, _) = Query::find_posts_in_page(&store, 3, 2).unwrap();
    assert_eq!(last.len(), 1);
    assert_eq!(last[0].id, 5);

    let (past, _) = Query::find_posts_in_page(&store, 4, 2).unwrap();
    assert_eq!(past.len(), 0);
}

#[test]
fn users_page_is_ordered_by_id() {
    let mut store = Store::new();
    for k in 0..4 {
        Mutation::create_user(
            &mut store,
            user::Model {
                id: 0,
                name: format!("u{}", k),
                email: format!("u{}@example.com", k),
                password: "h".to_string(),
                created_at: 0,
                updated_at: 0,
            },
        )
        .unwrap();
    }
    let (items, total) = Query::find_users_in_page(&store, 2, 3).unwrap();
    assert_eq!(total, 2);
    assert_eq!(items.len(), 1);
    assert_eq!(items[0].id, 4);
}

#[test]
fn comments_page_filters_by_post() {
    let mut store = Store::new();
    let store_ref = &mut store;
    Mutation::create_user(
        store_ref,
        user::Model {
            id: 0,
            name: "Ada".to_string(),
            email: "ada@example.com".to_string(),
            password: "h".to_string(),
            created_at: 0,
            updated_at: 0,
        },
    )
    .unwrap();
    Mutation::create_post(
        store_ref,
        post::Model { id: 0, user_id: 1, title: "a".to_string(), body: "b".to_string() },
    )
    .unwrap();
    Mutation::create_post(
        store_ref,
        post::Model { id: 0, user_id: 1, title: "c".to_string(), body: "d".to_string() },
    )
    .unwrap();
    for k in 0..3 {
        Mutation::create_comment(
            store_ref,
            blog_api::comment::Model {
                id: 0,
                user_id: 1,
                post_id: if k == 1 { 2 } else { 1 },
                content: format!("c{}", k),
            },
        )
        .unwrap();
    }
    let (items, total) =
        Query::find_comments_by_post_id_in_page(&store, 1, 1, 10).unwrap();
    assert_eq!(total, 1);
    assert_eq!(items.len(), 2);
    assert_eq!(items[0].id, 1);
    assert_eq!(items[1].id, 3);
}

#[test]
fn search_matches_title_or_body_descending() {
    let store = store_with_posts(4);
    // every post matches "post"; ids come back descending
    let (items, total) = Query::search_posts(&store, "post", 1, 10).unwrap();
    assert_eq!(total, 1);
    let ids: Vec<i32> = items.iter().map(|p| p.id).collect();
    assert_eq!(ids, vec![4, 3, 2, 1]);

    // a keyword matching only one body
    let (one, pages) = Query::search_posts(&store, "body 2", 1, 10).unwrap();
    assert_eq!(pages, 1);
    assert_eq!(one.len(), 1);
    assert_eq!(one[0].title, "post 2");

    // no match
    let (none, zero) = Query::search_posts(&store, "zebra", 1, 10).unwrap();
    assert_eq!(none.len(), 0);
    assert_eq!(zero, 0);
}

#[test]
fn search_pagination_windows_descending_order() {
    let store = store_with_posts(5);
    let (page2, total) = Query::search_posts(&store, "post", 2, 2).unwrap();
    assert_eq!(total, 3);
    let ids: Vec<i32> = page2.iter().map(|p| p.id).collect();
    assert_eq!(ids, vec![3, 2]);
}

#[test]
fn posts_by_user_keeps_table_order() {
    let store = store_with_posts(3);
    let posts = Query::find_posts_by_user_id(&store, 1).unwrap();
    let ids: Vec<i32> = posts.iter().map(|p| p.id).collect();
    assert_eq!(ids, vec![1, 2, 3]);
    let none = Query::find_posts_by_user_id(&store, 2).unwrap();
    assert!(none.is_empty());
}
