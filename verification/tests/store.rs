use blog_core::errors::StorageFailure;
use blog_core::models::{Comment, Post, User, UserKey};
use blog_core::store::Store;

fn named(id: i32, username: &str) -> User {
    User { id, username: username.to_string() }
}

fn titled(id: i32, user_id: i32, title: &str) -> Post {
    Post { id, user_id, title: title.to_string(), body: String::new(), published: false }
}

fn remark(id: i32, user_id: i32, post_id: i32) -> Comment {
    Comment { id, user_id, post_id, body: "x".to_string() }
}

#[test]
fn new_store_is_empty() {
    let store = Store::new();
    assert!(store.users().is_empty());
    assert!(store.posts().is_empty());
    assert!(store.comments().is_empty());
    assert_eq!(store.newest_user(), Err(StorageFailure::NotFound));
    assert_eq!(store.newest_post(), Err(StorageFailure::NotFound));
    assert_eq!(store.newest_comment(), Err(StorageFailure::NotFound));
}

#[test]
fn from_tables_accepts_well_formed_tables() {
    let store = Store::from_tables(
        vec![named(-3, "a"), named(4, "b")],
        vec![titled(2, 4, "t"), titled(3, 4, "t")],
        vec![remark(1, 4, 2), remark(10, 4, 2)],
    )
    .unwrap();
    assert_eq!(store.users(), &vec![named(-3, "a"), named(4, "b")]);
    assert_eq!(store.posts().len(), 2);
    assert_eq!(store.comments().len(), 2);
}

#[test]
fn from_tables_refuses_ids_out_of_order() {
    assert!(Store::from_tables(vec![named(2, "a"), named(1, "b")], vec![], vec![]).is_none());
    assert!(Store::from_tables(vec![named(1, "a"), named(1, "b")], vec![], vec![]).is_none());
    assert!(Store::from_tables(vec![], vec![titled(2, 1, "a"), titled(2, 1, "b")], vec![]).is_none());
    assert!(Store::from_tables(vec![], vec![], vec![remark(3, 1, 1), remark(2, 1, 1)]).is_none());
}

#[test]
fn from_tables_refuses_a_shared_username() {
    assert!(Store::from_tables(
        vec![named(1, "a"), named(2, "b"), named(3, "a")],
        vec![],
        vec![]
    )
    .is_none());
}

#[test]
fn insert_user_reports_the_unique_violation() {
    let mut store = Store::new();
    assert_eq!(store.insert_user("alice"), Ok(()));
    assert_eq!(store.insert_user("alice"), Err(StorageFailure::UniqueViolation));
    assert_eq!(store.newest_user(), Ok(named(1, "alice")));
}

#[test]
fn insert_continues_after_the_greatest_identifier() {
    let mut store =
        Store::from_tables(vec![named(7, "a")], vec![titled(20, 7, "t")], vec![remark(-5, 7, 20)])
            .unwrap();
    store.insert_user("b").unwrap();
    store.insert_post(7, "u", "v").unwrap();
    store.insert_comment(7, 20, "w").unwrap();
    assert_eq!(store.newest_user().unwrap().id, 8);
    assert_eq!(store.newest_post().unwrap().id, 21);
    assert_eq!(store.newest_comment().unwrap().id, -4);
}

#[test]
fn first_user_and_first_post_find_by_unique_column() {
    let mut store = Store::new();
    store.insert_user("alice").unwrap();
    store.insert_user("bob").unwrap();
    store.insert_post(2, "t", "b").unwrap();
    assert_eq!(store.first_user(UserKey::Username("bob")), Ok(named(2, "bob")));
    assert_eq!(store.first_user(UserKey::ID(1)), Ok(named(1, "alice")));
    assert_eq!(store.first_user(UserKey::ID(3)), Err(StorageFailure::NotFound));
    assert_eq!(store.first_post(1).unwrap().user_id, 2);
    assert_eq!(store.first_post(2), Err(StorageFailure::NotFound));
}

#[test]
fn publish_touches_only_the_named_post() {
    let mut store = Store::new();
    store.insert_post(1, "a", "").unwrap();
    store.insert_post(1, "b", "").unwrap();
    store.publish(1);
    store.publish(9);
    assert!(store.first_post(1).unwrap().published);
    assert!(!store.first_post(2).unwrap().published);
}

#[test]
fn comments_belonging_to_filters_by_the_loaded_posts() {
    let mut store = Store::new();
    store.insert_user("alice").unwrap();
    store.insert_comment(1, 10, "a").unwrap();
    store.insert_comment(1, 20, "b").unwrap();
    store.insert_comment(1, 30, "c").unwrap();
    store.insert_comment(9, 10, "d").unwrap();
    let rows = store.comments_belonging_to(&vec![30, 10]);
    let ids: Vec<i32> = rows.iter().map(|row| row.0.id).collect();
    assert_eq!(ids, vec![1, 3]);
    assert_eq!(store.comments_belonging_to(&vec![]), vec![]);
    assert_eq!(store.post_comments(20).len(), 1);
    assert_eq!(store.posts_of(1), vec![]);
    assert_eq!(store.published_posts(), vec![]);
    assert_eq!(store.user_comments(1), vec![]);
}
