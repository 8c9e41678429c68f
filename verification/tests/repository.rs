use blog_core::errors::AppError;
use blog_core::models::{
    add_post, create_comment, create_post, create_user, fetch_all_posts, fetch_post_comments,
    fetch_user_comments, fetch_user_posts, find_user, publish_post, Comment, Post,
    PostWithComment, User, UserKey,
};
use blog_core::store::Store;

fn user(id: i32, username: &str) -> User {
    User { id, username: username.to_string() }
}

fn post(id: i32, user_id: i32, title: &str, body: &str, published: bool) -> Post {
    Post { id, user_id, title: title.to_string(), body: body.to_string(), published }
}

fn comment(id: i32, user_id: i32, post_id: i32, body: &str) -> Comment {
    Comment { id, user_id, post_id, body: body.to_string() }
}

#[test]
fn create_user_then_find_by_username() {
    let mut store = Store::new();
    let created = create_user(&mut store, "alice").unwrap();
    assert_eq!(created, user(1, "alice"));
    let found = find_user(&store, UserKey::Username("alice")).unwrap();
    assert_eq!(found, created);
    assert_eq!(find_user(&store, UserKey::ID(1)).unwrap(), created);
}

#[test]
fn created_users_get_fresh_ascending_ids() {
    let mut store = Store::new();
    assert_eq!(create_user(&mut store, "alice").unwrap().id, 1);
    assert_eq!(create_user(&mut store, "bob").unwrap().id, 2);
    assert_eq!(create_user(&mut store, "carol").unwrap().id, 3);
    assert_eq!(store.users().len(), 3);
}

#[test]
fn create_user_twice_is_record_already_exists() {
    let mut store = Store::new();
    create_user(&mut store, "alice").unwrap();
    assert_eq!(create_user(&mut store, "alice"), Err(AppError::RecordAlreadyExists));
    assert_eq!(store.users(), &vec![user(1, "alice")]);
}

#[test]
fn find_user_missing_is_record_not_found() {
    let mut store = Store::new();
    assert_eq!(find_user(&store, UserKey::ID(1)), Err(AppError::RecordNotFound));
    create_user(&mut store, "alice").unwrap();
    assert_eq!(find_user(&store, UserKey::ID(2)), Err(AppError::RecordNotFound));
    assert_eq!(find_user(&store, UserKey::Username("bob")), Err(AppError::RecordNotFound));
    assert_eq!(find_user(&store, UserKey::Username("")), Err(AppError::RecordNotFound));
}

#[test]
fn create_user_without_identifier_left_is_database_error() {
    let mut store = Store::from_tables(vec![user(i32::MAX, "last")], vec![], vec![]).unwrap();
    assert_eq!(
        create_user(&mut store, "next"),
        Err(AppError::DatabaseError("no identifier is left in the table".to_string()))
    );
    assert_eq!(store.users().len(), 1);
    assert_eq!(create_user(&mut store, "last"), Err(AppError::RecordAlreadyExists));
}

#[test]
fn create_post_takes_owner_from_user_and_starts_unpublished() {
    let mut store = Store::new();
    let alice = create_user(&mut store, "alice").unwrap();
    let created = create_post(&mut store, &alice, "Hello", "World").unwrap();
    assert_eq!(created, post(1, 1, "Hello", "World", false));
    let second = create_post(&mut store, &alice, "Again", "").unwrap();
    assert_eq!(second, post(2, 1, "Again", "", false));
}

#[test]
fn create_post_does_not_check_the_owner() {
    let mut store = Store::new();
    let ghost = user(42, "nobody");
    let created = create_post(&mut store, &ghost, "t", "b").unwrap();
    assert_eq!(created.user_id, 42);
    publish_post(&mut store, created.id).unwrap();
    assert_eq!(fetch_all_posts(&store).unwrap(), vec![]);
    assert_eq!(fetch_user_posts(&store, 42).unwrap().len(), 1);
}

#[test]
fn create_post_without_identifier_left_is_database_error() {
    let mut store =
        Store::from_tables(vec![user(1, "a")], vec![post(i32::MAX, 1, "t", "b", false)], vec![])
            .unwrap();
    assert_eq!(
        create_post(&mut store, &user(1, "a"), "x", "y"),
        Err(AppError::DatabaseError("no identifier is left in the table".to_string()))
    );
    assert_eq!(store.posts().len(), 1);
}

#[test]
fn add_post_looks_the_author_up_first() {
    let mut store = Store::new();
    assert_eq!(add_post(&mut store, 1, "Hello", "World"), Err(AppError::RecordNotFound));
    assert_eq!(store.posts().len(), 0);
    create_user(&mut store, "alice").unwrap();
    assert_eq!(add_post(&mut store, 1, "Hello", "World"), Ok(post(1, 1, "Hello", "World", false)));
}

#[test]
fn publish_post_sets_published_and_rereads_the_same_row() {
    let mut store = Store::new();
    let alice = create_user(&mut store, "alice").unwrap();
    create_post(&mut store, &alice, "first", "1").unwrap();
    create_post(&mut store, &alice, "second", "2").unwrap();
    let published = publish_post(&mut store, 2).unwrap();
    assert_eq!(published, post(2, 1, "second", "2", true));
    assert_eq!(store.posts(), &vec![post(1, 1, "first", "1", false), post(2, 1, "second", "2", true)]);
}

#[test]
fn publish_post_is_idempotent() {
    let mut store = Store::new();
    let alice = create_user(&mut store, "alice").unwrap();
    create_post(&mut store, &alice, "Hello", "World").unwrap();
    let first = publish_post(&mut store, 1).unwrap();
    let second = publish_post(&mut store, 1).unwrap();
    assert_eq!(first, second);
    assert!(second.published);
    assert_eq!(store.posts(), &vec![post(1, 1, "Hello", "World", true)]);
}

#[test]
fn publish_post_missing_is_record_not_found() {
    let mut store = Store::new();
    let alice = create_user(&mut store, "alice").unwrap();
    create_post(&mut store, &alice, "Hello", "World").unwrap();
    assert_eq!(publish_post(&mut store, 7), Err(AppError::RecordNotFound));
    assert_eq!(store.posts(), &vec![post(1, 1, "Hello", "World", false)]);
}

#[test]
fn create_comment_assigns_next_id() {
    let mut store = Store::new();
    assert_eq!(create_comment(&mut store, 2, 1, "Nice!"), Ok(comment(1, 2, 1, "Nice!")));
    assert_eq!(create_comment(&mut store, 3, 1, "Indeed"), Ok(comment(2, 3, 1, "Indeed")));
}

#[test]
fn create_comment_without_identifier_left_is_database_error() {
    let mut store =
        Store::from_tables(vec![], vec![], vec![comment(i32::MAX, 1, 1, "c")]).unwrap();
    assert_eq!(
        create_comment(&mut store, 1, 1, "d"),
        Err(AppError::DatabaseError("no identifier is left in the table".to_string()))
    );
}

#[test]
fn scenario_post_is_listed_only_after_publishing() {
    let mut store = Store::new();
    let alice = create_user(&mut store, "alice").unwrap();
    assert_eq!(alice.id, 1);
    let hello = create_post(&mut store, &alice, "Hello", "World").unwrap();
    assert_eq!(hello.id, 1);
    assert!(!hello.published);
    assert_eq!(fetch_all_posts(&store).unwrap(), vec![]);
    publish_post(&mut store, 1).unwrap();
    let listing = fetch_all_posts(&store).unwrap();
    assert_eq!(listing, vec![((post(1, 1, "Hello", "World", true), user(1, "alice")), vec![])]);
}

#[test]
fn scenario_comment_is_listed_with_its_author() {
    let mut store = Store::new();
    let alice = create_user(&mut store, "alice").unwrap();
    create_post(&mut store, &alice, "Hello", "World").unwrap();
    publish_post(&mut store, 1).unwrap();
    let bob = create_user(&mut store, "bob").unwrap();
    assert_eq!(bob.id, 2);
    create_comment(&mut store, bob.id, 1, "Nice!").unwrap();
    let comments = fetch_post_comments(&store, 1).unwrap();
    assert_eq!(comments, vec![(comment(1, 2, 1, "Nice!"), user(2, "bob"))]);
    assert_eq!(comments[0].0.body, "Nice!");
    assert_eq!(comments[0].1.username, "bob");
}

fn sample_store() -> Store {
    Store::from_tables(
        vec![user(1, "alice"), user(2, "bob"), user(5, "carol")],
        vec![
            post(1, 1, "one", "a", true),
            post(2, 2, "two", "b", false),
            post(3, 1, "three", "c", true),
            post(4, 9, "orphan", "d", true),
            post(6, 1, "six", "e", false),
        ],
        vec![
            comment(1, 2, 1, "c1"),
            comment(2, 5, 3, "c2"),
            comment(3, 1, 1, "c3"),
            comment(4, 7, 1, "by nobody"),
            comment(5, 2, 2, "c5"),
            comment(6, 2, 8, "on nothing"),
            comment(7, 2, 6, "c7"),
        ],
    )
    .unwrap()
}

#[test]
fn fetch_all_posts_lists_published_posts_newest_first() {
    let store = sample_store();
    let listing = fetch_all_posts(&store).unwrap();
    assert_eq!(
        listing,
        vec![
            (
                (post(3, 1, "three", "c", true), user(1, "alice")),
                vec![(comment(2, 5, 3, "c2"), user(5, "carol"))],
            ),
            (
                (post(1, 1, "one", "a", true), user(1, "alice")),
                vec![
                    (comment(1, 2, 1, "c1"), user(2, "bob")),
                    (comment(3, 1, 1, "c3"), user(1, "alice")),
                ],
            ),
        ]
    );
}

#[test]
fn fetch_all_posts_never_lists_unpublished_posts() {
    let store = sample_store();
    for ((listed, _), _) in fetch_all_posts(&store).unwrap() {
        assert!(listed.published);
    }
}

#[test]
fn fetch_user_posts_lists_published_and_unpublished() {
    let store = sample_store();
    assert_eq!(
        fetch_user_posts(&store, 1).unwrap(),
        vec![
            (post(6, 1, "six", "e", false), vec![(comment(7, 2, 6, "c7"), user(2, "bob"))]),
            (post(3, 1, "three", "c", true), vec![(comment(2, 5, 3, "c2"), user(5, "carol"))]),
            (
                post(1, 1, "one", "a", true),
                vec![
                    (comment(1, 2, 1, "c1"), user(2, "bob")),
                    (comment(3, 1, 1, "c3"), user(1, "alice")),
                ],
            ),
        ]
    );
    assert_eq!(
        fetch_user_posts(&store, 2).unwrap(),
        vec![(post(2, 2, "two", "b", false), vec![(comment(5, 2, 2, "c5"), user(2, "bob"))])]
    );
    assert_eq!(fetch_user_posts(&store, 5).unwrap(), vec![]);
}

#[test]
fn fetch_post_comments_is_flat_and_in_stored_order() {
    let store = sample_store();
    assert_eq!(
        fetch_post_comments(&store, 1).unwrap(),
        vec![(comment(1, 2, 1, "c1"), user(2, "bob")), (comment(3, 1, 1, "c3"), user(1, "alice"))]
    );
    assert_eq!(fetch_post_comments(&store, 4).unwrap(), vec![]);
    assert_eq!(
        fetch_post_comments(&store, 8).unwrap(),
        vec![(comment(6, 2, 8, "on nothing"), user(2, "bob"))]
    );
    assert_eq!(fetch_post_comments(&store, 99).unwrap(), vec![]);
}

#[test]
fn fetch_user_comments_joins_the_post_summary() {
    let store = sample_store();
    assert_eq!(
        fetch_user_comments(&store, 2).unwrap(),
        vec![
            (
                comment(1, 2, 1, "c1"),
                PostWithComment { id: 1, title: "one".to_string(), published: true },
            ),
            (
                comment(5, 2, 2, "c5"),
                PostWithComment { id: 2, title: "two".to_string(), published: false },
            ),
            (
                comment(7, 2, 6, "c7"),
                PostWithComment { id: 6, title: "six".to_string(), published: false },
            ),
        ]
    );
    assert_eq!(fetch_user_comments(&store, 7).unwrap().len(), 1);
    assert_eq!(fetch_user_comments(&store, 3).unwrap(), vec![]);
}
