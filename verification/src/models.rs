//! The rows of the blog's three tables, and the repository operations that
//! create, find and list them in a [`Store`].

use vstd::prelude::*;
use crate::associations::{grouped_by, grouping, ids_of, unzip, zip, BelongsTo, Identifiable};
use crate::errors::{AppError, AppErrorView};
use crate::relation::{as_ints, lemma_filter_views, on_post, views};
use crate::store::Store;

verus! {

/// An account. `username` is unique among the users of a store.
#[derive(Debug, PartialEq, Eq)]
pub struct User {
    pub id: i32,
    pub username: String,
}

/// A post. `user_id` names the owner; `published` starts `false`.
#[derive(Debug, PartialEq, Eq)]
pub struct Post {
    pub id: i32,
    pub user_id: i32,
    pub title: String,
    pub body: String,
    pub published: bool,
}

/// A comment by the user `user_id` on the post `post_id`.
#[derive(Debug, PartialEq, Eq)]
pub struct Comment {
    pub id: i32,
    pub user_id: i32,
    pub post_id: i32,
    pub body: String,
}

/// What a comment's listing shows of the post it was made on.
#[derive(Debug, PartialEq, Eq)]
pub struct PostWithComment {
    pub id: i32,
    pub title: String,
    pub published: bool,
}

/// The unique column by which a user is looked up.
pub enum UserKey<'a> {
    Username(&'a str),
    ID(i32),
}

/// Mathematical value of a [`User`].
pub struct UserView {
    pub id: int,
    pub username: Seq<char>,
}

/// Mathematical value of a [`Post`].
pub struct PostView {
    pub id: int,
    pub user_id: int,
    pub title: Seq<char>,
    pub body: Seq<char>,
    pub published: bool,
}

/// Mathematical value of a [`Comment`].
pub struct CommentView {
    pub id: int,
    pub user_id: int,
    pub post_id: int,
    pub body: Seq<char>,
}

/// Mathematical value of a [`PostWithComment`].
pub struct PostSummaryView {
    pub id: int,
    pub title: Seq<char>,
    pub published: bool,
}

/// Mathematical value of a [`UserKey`].
pub enum UserKeyView {
    Username(Seq<char>),
    ID(int),
}

impl View for User {
    type V = UserView;

    open spec fn view(&self) -> UserView {
        UserView { id: self.id as int, username: self.username@ }
    }
}

impl DeepView for User {
    type V = UserView;

    open spec fn deep_view(&self) -> UserView {
        self@
    }
}

impl View for Post {
    type V = PostView;

    open spec fn view(&self) -> PostView {
        PostView {
            id: self.id as int,
            user_id: self.user_id as int,
            title: self.title@,
            body: self.body@,
            published: self.published,
        }
    }
}

impl DeepView for Post {
    type V = PostView;

    open spec fn deep_view(&self) -> PostView {
        self@
    }
}

impl View for Comment {
    type V = CommentView;

    open spec fn view(&self) -> CommentView {
        CommentView {
            id: self.id as int,
            user_id: self.user_id as int,
            post_id: self.post_id as int,
            body: self.body@,
        }
    }
}

impl DeepView for Comment {
    type V = CommentView;

    open spec fn deep_view(&self) -> CommentView {
        self@
    }
}

impl View for PostWithComment {
    type V = PostSummaryView;

    open spec fn view(&self) -> PostSummaryView {
        PostSummaryView { id: self.id as int, title: self.title@, published: self.published }
    }
}

impl DeepView for PostWithComment {
    type V = PostSummaryView;

    open spec fn deep_view(&self) -> PostSummaryView {
        self@
    }
}

impl<'a> View for UserKey<'a> {
    type V = UserKeyView;

    open spec fn view(&self) -> UserKeyView {
        match *self {
            UserKey::Username(name) => UserKeyView::Username(name@),
            UserKey::ID(id) => UserKeyView::ID(id as int),
        }
    }
}

impl UserKeyView {
    /// Whether `user` is the row that this key names.
    pub open spec fn matches(self, user: UserView) -> bool {
        match self {
            UserKeyView::Username(name) => user.username == name,
            UserKeyView::ID(id) => user.id == id,
        }
    }
}

impl PostView {
    /// The reduced projection of a post that goes with a comment.
    pub open spec fn summary(self) -> PostSummaryView {
        PostSummaryView { id: self.id, title: self.title, published: self.published }
    }
}

impl Clone for User {
    fn clone(&self) -> (copy: User)
        ensures
            copy == *self,
    {
        User { id: self.id, username: self.username.clone() }
    }
}

impl Clone for Post {
    fn clone(&self) -> (copy: Post)
        ensures
            copy == *self,
    {
        Post {
            id: self.id,
            user_id: self.user_id,
            title: self.title.clone(),
            body: self.body.clone(),
            published: self.published,
        }
    }
}

impl Clone for Comment {
    fn clone(&self) -> (copy: Comment)
        ensures
            copy == *self,
    {
        Comment {
            id: self.id,
            user_id: self.user_id,
            post_id: self.post_id,
            body: self.body.clone(),
        }
    }
}

impl Clone for PostWithComment {
    fn clone(&self) -> (copy: PostWithComment)
        ensures
            copy == *self,
    {
        PostWithComment { id: self.id, title: self.title.clone(), published: self.published }
    }
}

impl Post {
    /// The projection `{id, title, published}` of this post.
    pub fn summary(&self) -> (s: PostWithComment)
        ensures
            s@ == self@.summary(),
    {
        PostWithComment { id: self.id, title: self.title.clone(), published: self.published }
    }
}


impl Identifiable for Post {
    open spec fn ident(&self) -> int {
        self.id as int
    }

    fn id(&self) -> (id: i32) {
        self.id
    }
}

impl Identifiable for User {
    open spec fn ident(&self) -> int {
        self.id as int
    }

    fn id(&self) -> (id: i32) {
        self.id
    }
}

impl Identifiable for Comment {
    open spec fn ident(&self) -> int {
        self.id as int
    }

    fn id(&self) -> (id: i32) {
        self.id
    }
}

impl BelongsTo<Post> for (Comment, User) {
    open spec fn parent(&self) -> int {
        self.0.post_id as int
    }

    fn foreign_key(&self) -> (key: i32) {
        self.0.post_id
    }

    fn duplicate(&self) -> (copy: (Comment, User)) {
        (self.0.clone(), self.1.clone())
    }
}

/// The mathematical value of what an operation returns.
pub open spec fn outcome<T: DeepView>(result: Result<T, AppError>) -> Result<T::V, AppErrorView> {
    match result {
        Ok(value) => Ok(value.deep_view()),
        Err(error) => Err(error@),
    }
}

/// Creates the user `username`: inserts the row and reads the newest row of
/// the table back, as one unit. A name that is taken is refused with
/// `RecordAlreadyExists`; a failure leaves the store as it was.
pub fn create_user(store: &mut Store, username: &str) -> (created: Result<User, AppError>)
    requires
        old(store).wf(),
    ensures
        final(store).wf(),
        final(store)@ == old(store)@.create_user(username@).0,
        outcome(created) == old(store)@.create_user(username@).1,
{
    match store.insert_user(username) {
        Ok(()) => match store.newest_user() {
            Ok(user) => Ok(user),
            Err(failure) => Err(AppError::classify(failure)),
        },
        Err(failure) => Err(AppError::classify(failure)),
    }
}

/// Looks a user up by name or by identifier. Without such a user the
/// result is `RecordNotFound`.
pub fn find_user(store: &Store, key: UserKey) -> (found: Result<User, AppError>)
    requires
        store.wf(),
    ensures
        outcome(found) == store@.find_user(key@),
{
    match store.first_user(key) {
        Ok(user) => Ok(user),
        Err(failure) => Err(AppError::classify(failure)),
    }
}

/// Creates an unpublished post owned by `user`: inserts the row and reads
/// the newest row of the table back, as one unit.
pub fn create_post(store: &mut Store, user: &User, title: &str, body: &str) -> (created: Result<
    Post,
    AppError,
>)
    requires
        old(store).wf(),
    ensures
        final(store).wf(),
        final(store)@ == old(store)@.create_post(user@.id, title@, body@).0,
        outcome(created) == old(store)@.create_post(user@.id, title@, body@).1,
{
    match store.insert_post(user.id, title, body) {
        Ok(()) => match store.newest_post() {
            Ok(post) => Ok(post),
            Err(failure) => Err(AppError::classify(failure)),
        },
        Err(failure) => Err(AppError::classify(failure)),
    }
}

/// Creates an unpublished post for the user with the identifier `user_id`:
/// the author is looked up first, and the post is owned by the user that
/// was found. Without such a user the result is `RecordNotFound` and
/// nothing is created.
pub fn add_post(store: &mut Store, user_id: i32, title: &str, body: &str) -> (created: Result<
    Post,
    AppError,
>)
    requires
        old(store).wf(),
    ensures
        final(store).wf(),
        final(store)@ == old(store)@.add_post(user_id as int, title@, body@).0,
        outcome(created) == old(store)@.add_post(user_id as int, title@, body@).1,
{
    match find_user(store, UserKey::ID(user_id)) {
        Ok(user) => create_post(store, &user, title, body),
        Err(error) => Err(error),
    }
}

/// Publishes the post `post_id` and reads that same row back. Publishing a
/// published post changes nothing and succeeds; without such a post the
/// result is `RecordNotFound` and the store is as it was.
pub fn publish_post(store: &mut Store, post_id: i32) -> (published: Result<Post, AppError>)
    requires
        old(store).wf(),
    ensures
        final(store).wf(),
        final(store)@ == old(store)@.publish_post(post_id as int).0,
        outcome(published) == old(store)@.publish_post(post_id as int).1,
{
    store.publish(post_id);
    match store.first_post(post_id) {
        Ok(post) => Ok(post),
        Err(failure) => {
            proof {
                old(store)@.lemma_publish_keeps_ids(post_id as int, post_id as int);
                old(store)@.lemma_publish_missing(post_id as int);
            }
            Err(AppError::classify(failure))
        },
    }
}

/// Creates a comment by `user_id` on `post_id`: inserts the row and reads
/// the newest row of the table back, as one unit.
pub fn create_comment(store: &mut Store, user_id: i32, post_id: i32, body: &str) -> (created:
    Result<Comment, AppError>)
    requires
        old(store).wf(),
    ensures
        final(store).wf(),
        final(store)@ == old(store)@.create_comment(user_id as int, post_id as int, body@).0,
        outcome(created) == old(store)@.create_comment(user_id as int, post_id as int, body@).1,
{
    match store.insert_comment(user_id, post_id, body) {
        Ok(()) => match store.newest_comment() {
            Ok(comment) => Ok(comment),
            Err(failure) => Err(AppError::classify(failure)),
        },
        Err(failure) => Err(AppError::classify(failure)),
    }
}

/// The groups that [`grouped_by`] makes of the comments on `posts` are, post
/// by post, the comments on that post.
proof fn lemma_groups_are_post_comments(
    store: &Store,
    posts: Seq<Post>,
    post_ids: Seq<i32>,
    comment_rows: Vec<(Comment, User)>,
    group: Vec<(Comment, User)>,
    i: int,
)
    requires
        0 <= i < posts.len(),
        post_ids.len() == posts.len(),
        post_ids[i] == posts[i].id,
        comment_rows.deep_view() == store@.comments_belonging_to(as_ints(post_ids)),
        group@ == grouping::<Post, (Comment, User)>(comment_rows@, posts)[i],
    ensures
        group.deep_view() == store@.post_comments(posts[i].id as int),
{
    let id = posts[i].id as int;
    let belongs = crate::associations::child_of::<Post, (Comment, User)>(id);
    assert(group.deep_view() =~= views(group@));
    assert(comment_rows.deep_view() =~= views(comment_rows@));
    lemma_filter_views(comment_rows@, belongs, on_post(id));
    assert(as_ints(post_ids)[i] == id);
    store@.lemma_comments_of_one_parent(as_ints(post_ids), id);
}

/// Every published post, newest first, with its author and the comments on
/// it, each comment with its own author, in stored order. The comments are
/// loaded for all listed posts at once and regrouped post by post.
pub fn fetch_all_posts(store: &Store) -> (listing: Result<
    Vec<((Post, User), Vec<(Comment, User)>)>,
    AppError,
>)
    requires
        store.wf(),
    ensures
        outcome(listing) == Ok::<_, AppErrorView>(store@.all_posts()),
        listing matches Ok(rows) && forall|i: int|
            0 <= i < rows@.len() ==> (#[trigger] rows@[i]).0.0.published,
{
    let post_with_users = store.published_posts();
    let ghost rows = post_with_users;
    let (posts, post_users) = unzip(post_with_users);
    let post_ids = ids_of(&posts);
    let comment_rows = store.comments_belonging_to(&post_ids);
    let comments = grouped_by(&comment_rows, &posts);
    let ghost parents = posts@;
    let listing = zip(zip(posts, post_users), comments);
    proof {
        let expected = store@.all_posts();
        assert(listing@.len() == expected.len());
        assert forall|i: int| 0 <= i < expected.len() implies listing.deep_view()[i]
            == expected[i] by {
            assert(listing@[i] == ((parents[i], post_users@[i]), comments@[i]));
            assert(rows.deep_view()[i] == (parents[i]@, post_users@[i]@));
            lemma_groups_are_post_comments(
                store,
                parents,
                post_ids@,
                comment_rows,
                comments@[i],
                i,
            );
        }
        assert(listing.deep_view() =~= expected);
        assert forall|i: int| 0 <= i < listing@.len() implies (
        #[trigger] listing@[i]).0.0.published by {
            crate::theorems::listing_is_published(store@, i);
            assert(listing.deep_view()[i].0.0.published == listing@[i].0.0.published);
        }
    }
    Ok(listing)
}

/// Every post of `user_id`, published or not, newest first, with the
/// comments on it, each comment with its own author, in stored order.
pub fn fetch_user_posts(store: &Store, user_id: i32) -> (listing: Result<
    Vec<(Post, Vec<(Comment, User)>)>,
    AppError,
>)
    requires
        store.wf(),
    ensures
        outcome(listing) == Ok::<_, AppErrorView>(store@.user_posts(user_id as int)),
{
    let posts = store.posts_of(user_id);
    let ghost rows = posts;
    let post_ids = ids_of(&posts);
    let comment_rows = store.comments_belonging_to(&post_ids);
    let comments = grouped_by(&comment_rows, &posts);
    let listing = zip(posts, comments);
    proof {
        let expected = store@.user_posts(user_id as int);
        assert(listing@.len() == expected.len());
        assert forall|i: int| 0 <= i < expected.len() implies listing.deep_view()[i]
            == expected[i] by {
            assert(listing@[i] == (rows@[i], comments@[i]));
            assert(rows.deep_view()[i] == rows@[i]@);
            lemma_groups_are_post_comments(
                store,
                rows@,
                post_ids@,
                comment_rows,
                comments@[i],
                i,
            );
        }
        assert(listing.deep_view() =~= expected);
    }
    Ok(listing)
}

/// The comments on the post `post_id`, in stored order, each with its
/// author.
pub fn fetch_post_comments(store: &Store, post_id: i32) -> (listing: Result<
    Vec<(Comment, User)>,
    AppError,
>)
    requires
        store.wf(),
    ensures
        outcome(listing) == Ok::<_, AppErrorView>(store@.post_comments(post_id as int)),
{
    Ok(store.post_comments(post_id))
}

/// The comments that `user_id` wrote, in stored order, each with the
/// identifier, title and state of its post.
pub fn fetch_user_comments(store: &Store, user_id: i32) -> (listing: Result<
    Vec<(Comment, PostWithComment)>,
    AppError,
>)
    requires
        store.wf(),
    ensures
        outcome(listing) == Ok::<_, AppErrorView>(store@.user_comments(user_id as int)),
{
    Ok(store.user_comments(user_id))
}

} // verus!
