//! The mathematical model of a store: three tables of rows, the condition
//! under which they are well formed, and, as functions on that model, the
//! statements and the repository operations that a store carries out.

use vstd::prelude::*;
use crate::errors::{AppErrorView, StorageFailureView};
use crate::models::{CommentView, PostSummaryView, PostView, UserKeyView, UserView};

verus! {

/// The three tables of a store, each in the order in which its rows were
/// inserted.
pub struct StoreView {
    pub users: Seq<UserView>,
    pub posts: Seq<PostView>,
    pub comments: Seq<CommentView>,
}

/// The row of `rows` that satisfies `pred`, if one does. Where several do,
/// it is one of them; the tables of a well-formed store are searched by
/// unique columns only.
pub open spec fn find_row<T>(rows: Seq<T>, pred: spec_fn(T) -> bool) -> Option<T> {
    if exists|i: int| 0 <= i < rows.len() && pred(#[trigger] rows[i]) {
        Some(rows[choose|i: int| 0 <= i < rows.len() && pred(#[trigger] rows[i])])
    } else {
        None
    }
}

/// The cause that a store reports when a table has no identifier left to
/// assign.
pub open spec fn out_of_identifiers() -> Seq<char> {
    "no identifier is left in the table"@
}

/// The identifier that a table assigns next, after the identifier `last` of
/// its newest row: one more than it, or 1 in an empty table.
pub open spec fn next_id(last: Option<int>) -> int {
    match last {
        Some(id) => id + 1,
        None => 1,
    }
}

/// Pairs `row` with the user `author`, if there is one.
pub open spec fn joined<R>(row: R, author: Option<UserView>) -> Option<(R, UserView)> {
    match author {
        Some(user) => Some((row, user)),
        None => None,
    }
}

impl StoreView {
    /// The store without any row.
    pub open spec fn empty() -> StoreView {
        StoreView { users: Seq::empty(), posts: Seq::empty(), comments: Seq::empty() }
    }

    /// In every table the identifiers grow strictly from row to row, so each
    /// is unique and the last row is the newest; no two users share a
    /// username.
    pub open spec fn wf(self) -> bool {
        &&& forall|i: int, j: int|
            0 <= i < j < self.users.len() ==> (#[trigger] self.users[i]).id < (
            #[trigger] self.users[j]).id
        &&& forall|i: int, j: int|
            0 <= i < j < self.users.len() ==> (#[trigger] self.users[i]).username != (
            #[trigger] self.users[j]).username
        &&& forall|i: int, j: int|
            0 <= i < j < self.posts.len() ==> (#[trigger] self.posts[i]).id < (
            #[trigger] self.posts[j]).id
        &&& forall|i: int, j: int|
            0 <= i < j < self.comments.len() ==> (#[trigger] self.comments[i]).id < (
            #[trigger] self.comments[j]).id
    }

    /// Whether some user has the name `username`.
    pub open spec fn has_username(self, username: Seq<char>) -> bool {
        exists|i: int| 0 <= i < self.users.len() && (#[trigger] self.users[i]).username == username
    }

    /// The identifier that the next user gets.
    pub open spec fn next_user_id(self) -> int {
        next_id(if self.users.len() == 0 { None } else { Some(self.users.last().id) })
    }

    /// The identifier that the next post gets.
    pub open spec fn next_post_id(self) -> int {
        next_id(if self.posts.len() == 0 { None } else { Some(self.posts.last().id) })
    }

    /// The identifier that the next comment gets.
    pub open spec fn next_comment_id(self) -> int {
        next_id(if self.comments.len() == 0 { None } else { Some(self.comments.last().id) })
    }

    /// The user that `key` names.
    pub open spec fn user_by(self, key: UserKeyView) -> Option<UserView> {
        find_row(self.users, |user: UserView| key.matches(user))
    }

    /// The user with the identifier `id`.
    pub open spec fn user_with_id(self, id: int) -> Option<UserView> {
        self.user_by(UserKeyView::ID(id))
    }

    /// The post with the identifier `id`.
    pub open spec fn post_with_id(self, id: int) -> Option<PostView> {
        find_row(self.posts, |post: PostView| post.id == id)
    }

    /// The store with one more user.
    pub open spec fn with_user(self, user: UserView) -> StoreView {
        StoreView { users: self.users.push(user), ..self }
    }

    /// The store with one more post.
    pub open spec fn with_post(self, post: PostView) -> StoreView {
        StoreView { posts: self.posts.push(post), ..self }
    }

    /// The store with one more comment.
    pub open spec fn with_comment(self, comment: CommentView) -> StoreView {
        StoreView { comments: self.comments.push(comment), ..self }
    }

    /// The store in which every post with the identifier `id` is published.
    pub open spec fn with_published(self, id: int) -> StoreView {
        StoreView {
            posts: self.posts.map_values(
                |post: PostView| if post.id == id { PostView { published: true, ..post } } else { post },
            ),
            ..self
        }
    }
}


// Statements: what a store does in one step.
impl StoreView {
    /// Inserts a user named `username`: refused as a broken uniqueness
    /// constraint where the name is taken, and as another failure where no
    /// identifier is left; else the table gets a row with the next
    /// identifier.
    pub open spec fn insert_user(self, username: Seq<char>) -> Result<
        StoreView,
        StorageFailureView,
    > {
        if self.has_username(username) {
            Err(StorageFailureView::UniqueViolation)
        } else if self.next_user_id() > i32::MAX {
            Err(StorageFailureView::Other(out_of_identifiers()))
        } else {
            Ok(self.with_user(UserView { id: self.next_user_id(), username }))
        }
    }

    /// Inserts an unpublished post owned by `user_id`.
    pub open spec fn insert_post(self, user_id: int, title: Seq<char>, body: Seq<char>) -> Result<
        StoreView,
        StorageFailureView,
    > {
        if self.next_post_id() > i32::MAX {
            Err(StorageFailureView::Other(out_of_identifiers()))
        } else {
            Ok(
                self.with_post(
                    PostView { id: self.next_post_id(), user_id, title, body, published: false },
                ),
            )
        }
    }

    /// Inserts a comment by `user_id` on `post_id`.
    pub open spec fn insert_comment(self, user_id: int, post_id: int, body: Seq<char>) -> Result<
        StoreView,
        StorageFailureView,
    > {
        if self.next_comment_id() > i32::MAX {
            Err(StorageFailureView::Other(out_of_identifiers()))
        } else {
            Ok(
                self.with_comment(
                    CommentView { id: self.next_comment_id(), user_id, post_id, body },
                ),
            )
        }
    }

    /// The user with the greatest identifier.
    pub open spec fn newest_user(self) -> Result<UserView, StorageFailureView> {
        if self.users.len() == 0 {
            Err(StorageFailureView::NotFound)
        } else {
            Ok(self.users.last())
        }
    }

    /// The post with the greatest identifier.
    pub open spec fn newest_post(self) -> Result<PostView, StorageFailureView> {
        if self.posts.len() == 0 {
            Err(StorageFailureView::NotFound)
        } else {
            Ok(self.posts.last())
        }
    }

    /// The comment with the greatest identifier.
    pub open spec fn newest_comment(self) -> Result<CommentView, StorageFailureView> {
        if self.comments.len() == 0 {
            Err(StorageFailureView::NotFound)
        } else {
            Ok(self.comments.last())
        }
    }

    /// The one user that `key` names.
    pub open spec fn first_user(self, key: UserKeyView) -> Result<UserView, StorageFailureView> {
        match self.user_by(key) {
            Some(user) => Ok(user),
            None => Err(StorageFailureView::NotFound),
        }
    }

    /// The one post with the identifier `id`.
    pub open spec fn first_post(self, id: int) -> Result<PostView, StorageFailureView> {
        match self.post_with_id(id) {
            Some(post) => Ok(post),
            None => Err(StorageFailureView::NotFound),
        }
    }
}

// Queries: what a store's listings hold.
/// The identifiers `ids` as mathematical integers.
pub open spec fn as_ints(ids: Seq<i32>) -> Seq<int> {
    ids.map_values(|id: i32| id as int)
}

/// The mathematical values of `rows`, in their order.
pub open spec fn views<T: DeepView>(rows: Seq<T>) -> Seq<T::V> {
    rows.map_values(|row: T| row.deep_view())
}

/// Whether a comment with its author is on the post `post_id`.
pub open spec fn on_post(post_id: int) -> spec_fn((CommentView, UserView)) -> bool {
    |row: (CommentView, UserView)| row.0.post_id == post_id
}

impl StoreView {
    /// What the listing of published posts shows of `post`: the post with
    /// its author, where it is published and its author exists.
    pub open spec fn published_row(self) -> spec_fn(PostView) -> Option<(PostView, UserView)> {
        |post: PostView|
            if post.published {
                joined(post, self.user_with_id(post.user_id))
            } else {
                None
            }
    }

    /// The published posts, newest first, each with its author.
    pub open spec fn published_posts(self) -> Seq<(PostView, UserView)> {
        self.posts.reverse().filter_map(self.published_row())
    }

    /// Whether a post is owned by `user_id`.
    pub open spec fn owned_by(user_id: int) -> spec_fn(PostView) -> bool {
        |post: PostView| post.user_id == user_id
    }

    /// The posts of `user_id`, published or not, newest first.
    pub open spec fn posts_of(self, user_id: int) -> Seq<PostView> {
        self.posts.reverse().filter(Self::owned_by(user_id))
    }

    /// What a listing of the comments on the posts `parents` shows of
    /// `comment`: the comment with its author, where it is on one of those
    /// posts and its author exists.
    pub open spec fn comment_row(self, parents: Seq<int>) -> spec_fn(CommentView) -> Option<
        (CommentView, UserView),
    > {
        |comment: CommentView|
            if parents.contains(comment.post_id) {
                joined(comment, self.user_with_id(comment.user_id))
            } else {
                None
            }
    }

    /// The comments on any of the posts `parents`, in stored order, each
    /// with its author.
    pub open spec fn comments_belonging_to(self, parents: Seq<int>) -> Seq<
        (CommentView, UserView),
    > {
        self.comments.filter_map(self.comment_row(parents))
    }

    /// The comments on the post `post_id`, in stored order, each with its
    /// author.
    pub open spec fn post_comments(self, post_id: int) -> Seq<(CommentView, UserView)> {
        self.comments_belonging_to(seq![post_id])
    }

    /// What the listing of a user's comments shows of `comment`: the comment
    /// with a summary of its post, where `user_id` wrote it and the post
    /// exists.
    pub open spec fn user_comment_row(self, user_id: int) -> spec_fn(CommentView) -> Option<
        (CommentView, PostSummaryView),
    > {
        |comment: CommentView|
            if comment.user_id == user_id {
                match self.post_with_id(comment.post_id) {
                    Some(post) => Some((comment, post.summary())),
                    None => None,
                }
            } else {
                None
            }
    }

    /// The comments that `user_id` wrote, in stored order, each with a
    /// summary of its post.
    pub open spec fn user_comments(self, user_id: int) -> Seq<(CommentView, PostSummaryView)> {
        self.comments.filter_map(self.user_comment_row(user_id))
    }

    /// Every published post, newest first, with its author and the comments
    /// on it, each comment with its own author.
    pub open spec fn all_posts(self) -> Seq<((PostView, UserView), Seq<(CommentView, UserView)>)> {
        self.published_posts().map_values(
            |row: (PostView, UserView)| (row, self.post_comments(row.0.id)),
        )
    }

    /// Every post of `user_id`, newest first, with the comments on it, each
    /// comment with its own author.
    pub open spec fn user_posts(self, user_id: int) -> Seq<
        (PostView, Seq<(CommentView, UserView)>),
    > {
        self.posts_of(user_id).map_values(|post: PostView| (post, self.post_comments(post.id)))
    }
}

// Repository operations: the store after the operation, and what the
// operation returns.
impl StoreView {
    /// Creates the user `username`: the insert, then the newest row of the
    /// table, as one unit. A failure leaves the store as it was.
    pub open spec fn create_user(self, username: Seq<char>) -> (
        StoreView,
        Result<UserView, AppErrorView>,
    ) {
        match self.insert_user(username) {
            Ok(next) => (next, Ok(next.users.last())),
            Err(failure) => (self, Err(failure.classified())),
        }
    }

    /// Looks a user up by `key`.
    pub open spec fn find_user(self, key: UserKeyView) -> Result<UserView, AppErrorView> {
        match self.first_user(key) {
            Ok(user) => Ok(user),
            Err(failure) => Err(failure.classified()),
        }
    }

    /// Creates an unpublished post owned by `user_id`.
    pub open spec fn create_post(self, user_id: int, title: Seq<char>, body: Seq<char>) -> (
        StoreView,
        Result<PostView, AppErrorView>,
    ) {
        match self.insert_post(user_id, title, body) {
            Ok(next) => (next, Ok(next.posts.last())),
            Err(failure) => (self, Err(failure.classified())),
        }
    }

    /// Creates a post for the user with the identifier `user_id`, after
    /// looking that user up: without such a user nothing is created.
    pub open spec fn add_post(self, user_id: int, title: Seq<char>, body: Seq<char>) -> (
        StoreView,
        Result<PostView, AppErrorView>,
    ) {
        match self.find_user(UserKeyView::ID(user_id)) {
            Ok(user) => self.create_post(user.id, title, body),
            Err(error) => (self, Err(error)),
        }
    }

    /// Publishes the post `post_id` and reads that same row again. Without
    /// such a post nothing changes and the row is reported missing.
    pub open spec fn publish_post(self, post_id: int) -> (
        StoreView,
        Result<PostView, AppErrorView>,
    ) {
        match self.with_published(post_id).first_post(post_id) {
            Ok(post) => (self.with_published(post_id), Ok(post)),
            Err(failure) => (self, Err(failure.classified())),
        }
    }

    /// Creates a comment by `user_id` on `post_id`.
    pub open spec fn create_comment(self, user_id: int, post_id: int, body: Seq<char>) -> (
        StoreView,
        Result<CommentView, AppErrorView>,
    ) {
        match self.insert_comment(user_id, post_id, body) {
            Ok(next) => (next, Ok(next.comments.last())),
            Err(failure) => (self, Err(failure.classified())),
        }
    }
}

/// In a table searched by a column on which `rows[i]` is the only match, the
/// search finds `rows[i]`.
pub proof fn lemma_find_row_unique<T>(rows: Seq<T>, pred: spec_fn(T) -> bool, i: int)
    requires
        0 <= i < rows.len(),
        pred(rows[i]),
        forall|j: int| 0 <= j < rows.len() && pred(#[trigger] rows[j]) ==> j == i,
    ensures
        find_row(rows, pred) == Some(rows[i]),
{
}

/// A search that no row satisfies finds nothing.
pub proof fn lemma_find_row_none<T>(rows: Seq<T>, pred: spec_fn(T) -> bool)
    requires
        forall|j: int| 0 <= j < rows.len() ==> !pred(#[trigger] rows[j]),
    ensures
        find_row(rows, pred) is None,
{
}

impl StoreView {
    /// In a well-formed store a key names at most one user: the user at `i`,
    /// if it matches.
    pub proof fn lemma_user_by(self, key: UserKeyView, i: int)
        requires
            self.wf(),
            0 <= i < self.users.len(),
            key.matches(self.users[i]),
        ensures
            self.user_by(key) == Some(self.users[i]),
    {
        let pred = |user: UserView| key.matches(user);
        assert forall|j: int| 0 <= j < self.users.len() && pred(#[trigger] self.users[j]) implies j
            == i by {
            if j < i {
                assert(self.users[j].id < self.users[i].id);
                assert(self.users[j].username != self.users[i].username);
            } else if i < j {
                assert(self.users[i].id < self.users[j].id);
                assert(self.users[i].username != self.users[j].username);
            }
        }
        lemma_find_row_unique(self.users, pred, i);
    }

    /// In a well-formed store an identifier names at most one post.
    pub proof fn lemma_post_with_id(self, i: int)
        requires
            self.wf(),
            0 <= i < self.posts.len(),
        ensures
            self.post_with_id(self.posts[i].id) == Some(self.posts[i]),
    {
        let id = self.posts[i].id;
        let pred = |post: PostView| post.id == id;
        assert forall|j: int| 0 <= j < self.posts.len() && pred(#[trigger] self.posts[j]) implies j
            == i by {
            if j < i {
                assert(self.posts[j].id < self.posts[i].id);
            } else if i < j {
                assert(self.posts[i].id < self.posts[j].id);
            }
        }
        lemma_find_row_unique(self.posts, pred, i);
    }
}


/// Selecting rows and then taking their values gives what taking the values
/// and then selecting gives, where the two conditions agree.
pub proof fn lemma_filter_views<T: DeepView>(
    rows: Seq<T>,
    keep: spec_fn(T) -> bool,
    keep_value: spec_fn(T::V) -> bool,
)
    requires
        forall|row: T| #[trigger] keep(row) == keep_value(row.deep_view()),
    ensures
        views(rows.filter(keep)) == views(rows).filter(keep_value),
    decreases rows.len(),
{
    reveal(Seq::filter);
    if rows.len() == 0 {
        assert(views(rows.filter(keep)) =~= views(rows).filter(keep_value));
    } else {
        let rest = rows.drop_last();
        let last = rows.last();
        lemma_filter_views(rest, keep, keep_value);
        assert(rows =~= rest.push(last));
        assert(views(rows) =~= views(rest).push(last.deep_view()));
        rest.lemma_filter_push(last, keep);
        views(rest).lemma_filter_push(last.deep_view(), keep_value);
        if keep(last) {
            assert(views(rest.filter(keep).push(last)) =~= views(rest.filter(keep)).push(
                last.deep_view(),
            ));
        }
    }
}

/// A selection from the rows that a filtering join yields is the join that
/// filters by both conditions.
pub proof fn lemma_filter_after_filter_map<A, B>(
    rows: Seq<A>,
    wide: spec_fn(A) -> Option<B>,
    narrow: spec_fn(A) -> Option<B>,
    keep: spec_fn(B) -> bool,
)
    requires
        forall|row: A| #[trigger]
            narrow(row) == (match wide(row) {
                Some(out) => if keep(out) {
                    Some(out)
                } else {
                    None
                },
                None => None,
            }),
    ensures
        rows.filter_map(wide).filter(keep) == rows.filter_map(narrow),
    decreases rows.len(),
{
    reveal(Seq::filter);
    if rows.len() > 0 {
        let rest = rows.drop_last();
        lemma_filter_after_filter_map(rest, wide, narrow, keep);
        match wide(rows.last()) {
            Some(out) => {
                assert(rest.filter_map(wide) + seq![out] =~= rest.filter_map(wide).push(out));
                rest.filter_map(wide).lemma_filter_push(out, keep);
                if keep(out) {
                    assert(rest.filter_map(narrow) + seq![out] =~= rest.filter_map(narrow).push(
                        out,
                    ));
                }
            },
            None => {},
        }
    }
}

/// A filtering join keeps the order of its source: of two rows that it
/// yields, the earlier one comes from an earlier row of the source.
pub proof fn lemma_filter_map_keeps_order<A, B>(
    rows: Seq<A>,
    f: spec_fn(A) -> Option<B>,
    a: int,
    b: int,
)
    requires
        0 <= a < b < rows.filter_map(f).len(),
    ensures
        exists|i: int, j: int|
            #![trigger rows[i], rows[j]]
            0 <= i < j < rows.len() && f(rows[i]) == Some(rows.filter_map(f)[a]) && f(rows[j])
                == Some(rows.filter_map(f)[b]),
    decreases rows.len(),
{
    let rest = rows.drop_last();
    let yielded = rest.filter_map(f);
    if f(rows.last()) is Some && b == yielded.len() {
        assert(yielded.contains(yielded[a]));
        rest.lemma_filter_map_contains(f, yielded[a]);
        let source = choose|source: A| #[trigger]
            rest.contains(source) && f(source) == Some(yielded[a]);
        let i = choose|i: int| 0 <= i < rest.len() && rest[i] == source;
        let j = rows.len() - 1;
        assert(f(rows[i]) == Some(rows.filter_map(f)[a]) && f(rows[j]) == Some(
            rows.filter_map(f)[b],
        ));
    } else {
        lemma_filter_map_keeps_order(rest, f, a, b);
        let (i, j) = choose|i: int, j: int|
            #![trigger rest[i], rest[j]]
            0 <= i < j < rest.len() && f(rest[i]) == Some(yielded[a]) && f(rest[j]) == Some(
                yielded[b],
            );
        assert(f(rows[i]) == Some(rows.filter_map(f)[a]) && f(rows[j]) == Some(
            rows.filter_map(f)[b],
        ));
    }
}

impl StoreView {
    /// Among the comments on the posts `parents`, those on one of these
    /// posts are the comments on that post.
    pub proof fn lemma_comments_of_one_parent(self, parents: Seq<int>, post_id: int)
        requires
            parents.contains(post_id),
        ensures
            self.comments_belonging_to(parents).filter(on_post(post_id)) == self.post_comments(
                post_id,
            ),
    {
        let wide = self.comment_row(parents);
        let narrow = self.comment_row(seq![post_id]);
        assert forall|comment: CommentView| #[trigger]
            narrow(comment) == (match wide(comment) {
                Some(out) => if on_post(post_id)(out) {
                    Some(out)
                } else {
                    None
                },
                None => None,
            }) by {
            assert(seq![post_id][0] == post_id);
            assert(seq![post_id].contains(comment.post_id) <==> comment.post_id == post_id);
        }
        lemma_filter_after_filter_map(self.comments, wide, narrow, on_post(post_id));
    }

    /// Publishing a post that does not exist changes nothing.
    pub proof fn lemma_publish_missing(self, id: int)
        requires
            self.post_with_id(id) is None,
        ensures
            self.with_published(id) == self,
    {
        assert forall|k: int| 0 <= k < self.posts.len() implies (#[trigger] self.posts[k]).id
            != id by {
            let pred = |post: PostView| post.id == id;
            if self.posts[k].id == id {
                assert(pred(self.posts[k]));
            }
        }
        assert(self.with_published(id).posts =~= self.posts);
    }

    /// Publishing changes no identifier: a post is found before it exactly
    /// when one is found after it.
    pub proof fn lemma_publish_keeps_ids(self, id: int, wanted: int)
        ensures
            self.with_published(id).post_with_id(wanted) is Some <==> self.post_with_id(wanted)
                is Some,
    {
        let after = self.with_published(id);
        let pred = |post: PostView| post.id == wanted;
        if self.post_with_id(wanted) is Some {
            let k = choose|k: int| 0 <= k < self.posts.len() && pred(#[trigger] self.posts[k]);
            assert(pred(after.posts[k]));
        }
        if after.post_with_id(wanted) is Some {
            let k = choose|k: int| 0 <= k < after.posts.len() && pred(#[trigger] after.posts[k]);
            assert(pred(self.posts[k]));
        }
    }
}

} // verus!
