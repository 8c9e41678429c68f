//! What holds of the repository operations on every well-formed store,
//! stated over the model of [`crate::relation`] and proved from it.

use vstd::prelude::*;
use crate::associations::lemma_filter_keeps_order;
use crate::errors::AppErrorView;
use crate::models::{PostView, UserKeyView, UserView};
use crate::relation::{lemma_filter_map_keeps_order, StoreView};

verus! {

/// Creating a user keeps the store well formed, whatever the outcome.
pub proof fn create_user_keeps_wf(store: StoreView, username: Seq<char>)
    requires
        store.wf(),
    ensures
        store.create_user(username).0.wf(),
{
    if store.insert_user(username) is Ok {
        let after = store.create_user(username).0;
        let last = store.users.len() as int;
        assert forall|i: int, j: int| 0 <= i < j < after.users.len() implies (
        #[trigger] after.users[i]).id < (#[trigger] after.users[j]).id && after.users[i].username
            != after.users[j].username by {
            if j == last {
                assert(after.users[i] == store.users[i]);
                if i < last - 1 {
                    assert(store.users[i].id < store.users[last - 1].id);
                }
            } else {
                assert(after.users[i] == store.users[i]);
                assert(after.users[j] == store.users[j]);
            }
        }
    }
}

/// A user whose name is not taken yet is created, and is then found under
/// that name: with the same name, and with an identifier that no user had
/// before. The one store left out is the one whose table has no identifier
/// left.
pub proof fn created_user_is_found(store: StoreView, username: Seq<char>)
    requires
        store.wf(),
        !store.has_username(username),
        store.next_user_id() <= i32::MAX,
    ensures
        ({
            let (after, created) = store.create_user(username);
            &&& created matches Ok(user)
            &&& user.username == username
            &&& forall|i: int| 0 <= i < store.users.len() ==> (#[trigger] store.users[i]).id != user.id
            &&& after.find_user(UserKeyView::Username(username)) == Ok::<UserView, AppErrorView>(user)
            &&& after.find_user(UserKeyView::ID(user.id)) == Ok::<UserView, AppErrorView>(user)
        }),
{
    let after = store.create_user(username).0;
    let last = store.users.len() as int;
    let user = after.users[last];
    create_user_keeps_wf(store, username);
    assert forall|i: int| 0 <= i < store.users.len() implies (#[trigger] store.users[i]).id
        != user.id by {
        assert(after.users[i] == store.users[i]);
        assert(after.users[i].id < after.users[last].id);
    }
    after.lemma_user_by(UserKeyView::Username(username), last);
    after.lemma_user_by(UserKeyView::ID(user.id), last);
}

/// Creating a user under the same name a second time is refused with
/// `RecordAlreadyExists` and changes nothing. The one store left out is the
/// one whose table has no identifier left for the first call.
pub proof fn second_create_conflicts(store: StoreView, username: Seq<char>)
    requires
        store.wf(),
        store.next_user_id() <= i32::MAX,
    ensures
        ({
            let after = store.create_user(username).0;
            after.create_user(username) == (
                after,
                Err::<UserView, AppErrorView>(AppErrorView::RecordAlreadyExists),
            )
        }),
{
    let after = store.create_user(username).0;
    if !store.has_username(username) {
        let last = store.users.len() as int;
        assert(after.users[last].username == username);
    }
}

/// A key that no user matches finds `RecordNotFound`, and only such a key
/// does.
pub proof fn missing_user_is_not_found(store: StoreView, key: UserKeyView)
    ensures
        (forall|i: int| 0 <= i < store.users.len() ==> !key.matches(#[trigger] store.users[i]))
            <==> store.find_user(key) == Err::<UserView, AppErrorView>(
            AppErrorView::RecordNotFound,
        ),
        store.find_user(key) matches Ok(user) ==> key.matches(user) && store.users.contains(user),
{
    let pred = |user: UserView| key.matches(user);
    if exists|i: int| 0 <= i < store.users.len() && pred(#[trigger] store.users[i]) {
        let i = choose|i: int| 0 <= i < store.users.len() && pred(#[trigger] store.users[i]);
        assert(key.matches(store.users[i]));
    } else {
        assert forall|i: int| 0 <= i < store.users.len() implies !key.matches(
            #[trigger] store.users[i],
        ) by {
            assert(!pred(store.users[i]));
        }
    }
}


/// Publishing a post that is published already does not fail, returns the
/// post as it is, and leaves the store as it is.
pub proof fn publish_published_post(store: StoreView, at: int)
    requires
        store.wf(),
        0 <= at < store.posts.len(),
        store.posts[at].published,
    ensures
        store.publish_post(store.posts[at].id) == (
            store,
            Ok::<PostView, AppErrorView>(store.posts[at]),
        ),
{
    let id = store.posts[at].id;
    let after = store.with_published(id);
    assert forall|k: int| 0 <= k < store.posts.len() implies after.posts[k]
        == #[trigger] store.posts[k] by {
        if k < at {
            assert(store.posts[k].id < store.posts[at].id);
        } else if at < k {
            assert(store.posts[at].id < store.posts[k].id);
        }
    }
    assert(after.posts =~= store.posts);
    store.lemma_post_with_id(at);
}

/// Publishing is idempotent: where publishing a post succeeds, the post it
/// returns is published, and publishing it again returns the same post and
/// changes nothing more.
pub proof fn publish_is_idempotent(store: StoreView, post_id: int)
    requires
        store.wf(),
    ensures
        ({
            let (once, first) = store.publish_post(post_id);
            &&& once.wf()
            &&& first matches Ok(post) ==> post.published && post.id == post_id
                && once.publish_post(post_id) == (once, first)
            &&& first is Err ==> once == store && first == Err::<PostView, AppErrorView>(
                AppErrorView::RecordNotFound,
            )
        }),
{
    let (once, first) = store.publish_post(post_id);
    let after = store.with_published(post_id);
    assert(after.wf()) by {
        assert forall|i: int, j: int| 0 <= i < j < after.posts.len() implies (
        #[trigger] after.posts[i]).id < (#[trigger] after.posts[j]).id by {
            assert(store.posts[i].id < store.posts[j].id);
        }
    }
    if first is Ok {
        let pred = |post: PostView| post.id == post_id;
        let at = choose|k: int| 0 <= k < after.posts.len() && pred(#[trigger] after.posts[k]);
        assert(pred(after.posts[at]));
        after.lemma_post_with_id(at);
        publish_published_post(after, at);
    }
}

/// The listing of all posts never holds an unpublished post, and it holds
/// each post with the user that owns it.
pub proof fn listing_is_published(store: StoreView, at: int)
    requires
        0 <= at < store.all_posts().len(),
    ensures
        store.all_posts()[at].0.0.published,
        store.all_posts()[at].0.0.user_id == store.all_posts()[at].0.1.id,
        store.posts.contains(store.all_posts()[at].0.0),
        store.all_posts()[at].1 == store.post_comments(store.all_posts()[at].0.0.id),
{
    let rows = store.published_posts();
    let row = rows[at];
    assert(rows.contains(row));
    store.posts.reverse().lemma_filter_map_contains(store.published_row(), row);
    let post = choose|post: PostView| #[trigger]
        store.posts.reverse().contains(post) && store.published_row()(post) == Some(row);
    let k = choose|k: int| 0 <= k < store.posts.reverse().len() && store.posts.reverse()[k] == post;
    assert(store.posts[store.posts.len() - 1 - k] == post);
    let key = UserKeyView::ID(post.user_id);
    let author = row.1;
    assert(store.user_by(key) == Some(author));
    let pred = |user: UserView| key.matches(user);
    let i = choose|i: int| 0 <= i < store.users.len() && pred(#[trigger] store.users[i]);
    assert(pred(store.users[i]));
}


/// The listing of all posts is newest first: of two of its posts, the
/// earlier one has the greater identifier.
pub proof fn all_posts_are_newest_first(store: StoreView, a: int, b: int)
    requires
        store.wf(),
        0 <= a < b < store.all_posts().len(),
    ensures
        store.all_posts()[a].0.0.id > store.all_posts()[b].0.0.id,
{
    let newest_first = store.posts.reverse();
    lemma_filter_map_keeps_order(newest_first, store.published_row(), a, b);
    let (i, j) = choose|i: int, j: int|
        #![trigger newest_first[i], newest_first[j]]
        0 <= i < j < newest_first.len() && store.published_row()(newest_first[i]) == Some(
            store.published_posts()[a],
        ) && store.published_row()(newest_first[j]) == Some(store.published_posts()[b]);
    let count = store.posts.len() as int;
    assert(store.posts[count - 1 - j].id < store.posts[count - 1 - i].id);
}

/// The listing of a user's posts holds that user's posts only, and is
/// newest first.
pub proof fn user_posts_are_newest_first(store: StoreView, user_id: int, a: int, b: int)
    requires
        store.wf(),
        0 <= a < b < store.user_posts(user_id).len(),
    ensures
        store.user_posts(user_id)[a].0.id > store.user_posts(user_id)[b].0.id,
        store.user_posts(user_id)[a].0.user_id == user_id,
        store.user_posts(user_id)[b].0.user_id == user_id,
{
    let newest_first = store.posts.reverse();
    let owned = StoreView::owned_by(user_id);
    lemma_filter_keeps_order(newest_first, owned, a, b);
    let (i, j) = choose|i: int, j: int|
        #![trigger newest_first[i], newest_first[j]]
        0 <= i < j < newest_first.len() && newest_first[i] == newest_first.filter(owned)[a]
            && newest_first[j] == newest_first.filter(owned)[b];
    let count = store.posts.len() as int;
    assert(store.posts[count - 1 - j].id < store.posts[count - 1 - i].id);
    newest_first.lemma_filter_pred(owned, a);
    newest_first.lemma_filter_pred(owned, b);
}

} // verus!
