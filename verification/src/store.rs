//! The relational store: three tables held in memory, and the statements
//! that the repository operations are made of.

use vstd::prelude::*;
use vstd::string::*;
use crate::associations::{is_ascending, Identifiable};
use crate::errors::StorageFailure;
use crate::models::{Comment, Post, PostWithComment, User, UserKey};
use crate::relation::{as_ints, out_of_identifiers, StoreView};

verus! {

/// A store of users, posts and comments. Each table keeps its rows in the
/// order of their identifiers.
pub struct Store {
    users: Vec<User>,
    posts: Vec<Post>,
    comments: Vec<Comment>,
}

impl View for Store {
    type V = StoreView;

    closed spec fn view(&self) -> StoreView {
        StoreView {
            users: self.users.deep_view(),
            posts: self.posts.deep_view(),
            comments: self.comments.deep_view(),
        }
    }
}

/// The cause reported when a table has no identifier left.
fn no_identifier_left() -> (failure: StorageFailure)
    ensures
        failure@ == crate::errors::StorageFailureView::Other(out_of_identifiers()),
{
    StorageFailure::Other("no identifier is left in the table".to_owned())
}

impl Store {
    /// Whether the tables are well formed: see [`StoreView::wf`].
    pub open spec fn wf(&self) -> bool {
        self@.wf()
    }

    /// A store without any row.
    pub fn new() -> (store: Store)
        ensures
            store.wf(),
            store@ == StoreView::empty(),
    {
        let store = Store { users: Vec::new(), posts: Vec::new(), comments: Vec::new() };
        assert(store@.users =~= Seq::empty());
        assert(store@.posts =~= Seq::empty());
        assert(store@.comments =~= Seq::empty());
        store
    }

    /// The position of the user that `key` names.
    fn user_position(&self, key: &UserKey) -> (found: Option<usize>)
        ensures
            match found {
                Some(i) => i < self@.users.len() && key@.matches(self@.users[i as int]),
                None => forall|k: int|
                    0 <= k < self@.users.len() ==> !key@.matches(#[trigger] self@.users[k]),
            },
    {
        match key {
            UserKey::Username(name) => {
                let wanted = (*name).to_owned();
                let mut i: usize = 0;
                while i < self.users.len()
                    invariant
                        i <= self.users.len(),
                        wanted@ == name@,
                        key@ == crate::models::UserKeyView::Username(name@),
                        forall|k: int| 0 <= k < i ==> !key@.matches(#[trigger] self@.users[k]),
                    decreases self.users.len() - i,
                {
                    if self.users[i].username == wanted {
                        return Some(i);
                    }
                    i += 1;
                }
                None
            },
            UserKey::ID(id) => {
                let mut i: usize = 0;
                while i < self.users.len()
                    invariant
                        i <= self.users.len(),
                        key@ == crate::models::UserKeyView::ID(*id as int),
                        forall|k: int| 0 <= k < i ==> !key@.matches(#[trigger] self@.users[k]),
                    decreases self.users.len() - i,
                {
                    if self.users[i].id == *id {
                        return Some(i);
                    }
                    i += 1;
                }
                None
            },
        }
    }

    /// Inserts a user named `username` under the next identifier.
    pub fn insert_user(&mut self, username: &str) -> (done: Result<(), StorageFailure>)
        requires
            old(self).wf(),
        ensures
            final(self).wf(),
            match old(self)@.insert_user(username@) {
                Ok(next) => done is Ok && final(self)@ == next,
                Err(failure) => final(self)@ == old(self)@ && (done matches Err(e) && e@
                    == failure),
            },
    {
        if self.user_position(&UserKey::Username(username)).is_some() {
            return Err(StorageFailure::UniqueViolation);
        }
        let count = self.users.len();
        let id: i32 = if count == 0 {
            1
        } else {
            let last = self.users[count - 1].id;
            if last == i32::MAX {
                return Err(no_identifier_left());
            }
            last + 1
        };
        self.users.push(User { id, username: username.to_owned() });
        proof {
            let user = crate::models::UserView { id: id as int, username: username@ };
            assert(self@.users =~= old(self)@.users.push(user));
            assert(self@ == old(self)@.with_user(user));
        }
        Ok(())
    }

    /// The user with the greatest identifier.
    pub fn newest_user(&self) -> (row: Result<User, StorageFailure>)
        ensures
            match self@.newest_user() {
                Ok(user) => row matches Ok(u) && u@ == user,
                Err(failure) => row matches Err(e) && e@ == failure,
            },
    {
        let count = self.users.len();
        if count == 0 {
            Err(StorageFailure::NotFound)
        } else {
            Ok(self.users[count - 1].clone())
        }
    }

    /// The one user that `key` names.
    pub fn first_user(&self, key: UserKey) -> (row: Result<User, StorageFailure>)
        requires
            self.wf(),
        ensures
            match self@.first_user(key@) {
                Ok(user) => row matches Ok(u) && u@ == user,
                Err(failure) => row matches Err(e) && e@ == failure,
            },
    {
        match self.user_position(&key) {
            Some(i) => {
                proof {
                    self@.lemma_user_by(key@, i as int);
                }
                Ok(self.users[i].clone())
            },
            None => Err(StorageFailure::NotFound),
        }
    }
}


impl Store {
    /// The position of the post with the identifier `id`.
    fn post_position(&self, id: i32) -> (found: Option<usize>)
        ensures
            match found {
                Some(i) => i < self@.posts.len() && self@.posts[i as int].id == id,
                None => forall|k: int| 0 <= k < self@.posts.len() ==> (#[trigger] self@.posts[k]).id
                    != id,
            },
    {
        let mut i: usize = 0;
        while i < self.posts.len()
            invariant
                i <= self.posts.len(),
                forall|k: int| 0 <= k < i ==> (#[trigger] self@.posts[k]).id != id,
            decreases self.posts.len() - i,
        {
            if self.posts[i].id == id {
                return Some(i);
            }
            i += 1;
        }
        None
    }

    /// Inserts an unpublished post owned by `user_id` under the next
    /// identifier.
    pub fn insert_post(&mut self, user_id: i32, title: &str, body: &str) -> (done: Result<
        (),
        StorageFailure,
    >)
        requires
            old(self).wf(),
        ensures
            final(self).wf(),
            match old(self)@.insert_post(user_id as int, title@, body@) {
                Ok(next) => done is Ok && final(self)@ == next,
                Err(failure) => final(self)@ == old(self)@ && (done matches Err(e) && e@
                    == failure),
            },
    {
        let count = self.posts.len();
        let id: i32 = if count == 0 {
            1
        } else {
            let last = self.posts[count - 1].id;
            if last == i32::MAX {
                return Err(no_identifier_left());
            }
            last + 1
        };
        self.posts.push(
            Post { id, user_id, title: title.to_owned(), body: body.to_owned(), published: false },
        );
        proof {
            let post = crate::models::PostView {
                id: id as int,
                user_id: user_id as int,
                title: title@,
                body: body@,
                published: false,
            };
            assert(self@.posts =~= old(self)@.posts.push(post));
            assert(self@ == old(self)@.with_post(post));
        }
        Ok(())
    }

    /// The post with the greatest identifier.
    pub fn newest_post(&self) -> (row: Result<Post, StorageFailure>)
        ensures
            match self@.newest_post() {
                Ok(post) => row matches Ok(p) && p@ == post,
                Err(failure) => row matches Err(e) && e@ == failure,
            },
    {
        let count = self.posts.len();
        if count == 0 {
            Err(StorageFailure::NotFound)
        } else {
            Ok(self.posts[count - 1].clone())
        }
    }

    /// The one post with the identifier `id`.
    pub fn first_post(&self, id: i32) -> (row: Result<Post, StorageFailure>)
        requires
            self.wf(),
        ensures
            match self@.first_post(id as int) {
                Ok(post) => row matches Ok(p) && p@ == post,
                Err(failure) => row matches Err(e) && e@ == failure,
            },
    {
        match self.post_position(id) {
            Some(i) => {
                proof {
                    self@.lemma_post_with_id(i as int);
                }
                Ok(self.posts[i].clone())
            },
            None => {
                proof {
                    crate::relation::lemma_find_row_none(
                        self@.posts,
                        |post: crate::models::PostView| post.id == id as int,
                    );
                }
                Err(StorageFailure::NotFound)
            },
        }
    }

    /// Marks the post with the identifier `id` as published.
    pub fn publish(&mut self, id: i32)
        requires
            old(self).wf(),
        ensures
            final(self).wf(),
            final(self)@ == old(self)@.with_published(id as int),
    {
        match self.post_position(id) {
            Some(i) => {
                self.posts[i].published = true;
                proof {
                    assert forall|k: int| 0 <= k < self@.posts.len() implies (
                    #[trigger] self@.posts[k]) == old(self)@.with_published(id as int).posts[k] by {
                        if k < i {
                            assert(old(self)@.posts[k].id < old(self)@.posts[i as int].id);
                        } else if i < k {
                            assert(old(self)@.posts[i as int].id < old(self)@.posts[k].id);
                        }
                    }
                    assert(self@.posts =~= old(self)@.with_published(id as int).posts);
                }
            },
            None => {
                proof {
                    assert(self@.posts =~= old(self)@.with_published(id as int).posts);
                }
            },
        }
    }

    /// Inserts a comment by `user_id` on `post_id` under the next
    /// identifier.
    pub fn insert_comment(&mut self, user_id: i32, post_id: i32, body: &str) -> (done: Result<
        (),
        StorageFailure,
    >)
        requires
            old(self).wf(),
        ensures
            final(self).wf(),
            match old(self)@.insert_comment(user_id as int, post_id as int, body@) {
                Ok(next) => done is Ok && final(self)@ == next,
                Err(failure) => final(self)@ == old(self)@ && (done matches Err(e) && e@
                    == failure),
            },
    {
        let count = self.comments.len();
        let id: i32 = if count == 0 {
            1
        } else {
            let last = self.comments[count - 1].id;
            if last == i32::MAX {
                return Err(no_identifier_left());
            }
            last + 1
        };
        self.comments.push(Comment { id, user_id, post_id, body: body.to_owned() });
        proof {
            let comment = crate::models::CommentView {
                id: id as int,
                user_id: user_id as int,
                post_id: post_id as int,
                body: body@,
            };
            assert(self@.comments =~= old(self)@.comments.push(comment));
            assert(self@ == old(self)@.with_comment(comment));
        }
        Ok(())
    }

    /// The comment with the greatest identifier.
    pub fn newest_comment(&self) -> (row: Result<Comment, StorageFailure>)
        ensures
            match self@.newest_comment() {
                Ok(comment) => row matches Ok(c) && c@ == comment,
                Err(failure) => row matches Err(e) && e@ == failure,
            },
    {
        let count = self.comments.len();
        if count == 0 {
            Err(StorageFailure::NotFound)
        } else {
            Ok(self.comments[count - 1].clone())
        }
    }
}


/// Whether `id` is one of `ids`.
fn contains_id(ids: &Vec<i32>, id: i32) -> (found: bool)
    ensures
        found == as_ints(ids@).contains(id as int),
{
    let ghost wide = as_ints(ids@);
    let mut i: usize = 0;
    while i < ids.len()
        invariant
            i <= ids.len(),
            wide == as_ints(ids@),
            forall|k: int| 0 <= k < i ==> wide[k] != id as int,
        decreases ids.len() - i,
    {
        if ids[i] == id {
            assert(wide[i as int] == id as int);
            return true;
        }
        i += 1;
    }
    false
}

impl Store {
    /// The published posts, newest first, each with its author.
    pub fn published_posts(&self) -> (rows: Vec<(Post, User)>)
        requires
            self.wf(),
        ensures
            rows.deep_view() == self@.published_posts(),
    {
        let ghost newest_first = self@.posts.reverse();
        let ghost row = self@.published_row();
        let count = self.posts.len();
        let mut rows: Vec<(Post, User)> = Vec::new();
        let mut done: usize = 0;
        assert(rows.deep_view() =~= newest_first.take(0).filter_map(row));
        while done < count
            invariant
                self.wf(),
                done <= count,
                count == self.posts.len(),
                newest_first == self@.posts.reverse(),
                row == self@.published_row(),
                rows.deep_view() == newest_first.take(done as int).filter_map(row),
            decreases count - done,
        {
            let post = &self.posts[count - 1 - done];
            let ghost before = rows.deep_view();
            proof {
                newest_first.lemma_filter_map_take_succ(row, done as int);
                assert(newest_first[done as int] == post@);
            }
            if post.published {
                match self.user_position(&UserKey::ID(post.user_id)) {
                    Some(i) => {
                        proof {
                            self@.lemma_user_by(
                                crate::models::UserKeyView::ID(post.user_id as int),
                                i as int,
                            );
                        }
                        rows.push((post.clone(), self.users[i].clone()));
                        assert(rows.deep_view() =~= before + seq![(post@, self@.users[i as int])]);
                    },
                    None => {},
                }
            }
            done += 1;
        }
        assert(newest_first.take(count as int) =~= newest_first);
        rows
    }

    /// The posts of `user_id`, published or not, newest first.
    pub fn posts_of(&self, user_id: i32) -> (rows: Vec<Post>)
        ensures
            rows.deep_view() == self@.posts_of(user_id as int),
    {
        let ghost newest_first = self@.posts.reverse();
        let ghost owned = StoreView::owned_by(user_id as int);
        let count = self.posts.len();
        let mut rows: Vec<Post> = Vec::new();
        let mut done: usize = 0;
        proof {
            reveal(Seq::filter);
            assert(rows.deep_view() =~= newest_first.take(0).filter(owned));
        }
        while done < count
            invariant
                done <= count,
                count == self.posts.len(),
                newest_first == self@.posts.reverse(),
                owned == StoreView::owned_by(user_id as int),
                rows.deep_view() == newest_first.take(done as int).filter(owned),
            decreases count - done,
        {
            let post = &self.posts[count - 1 - done];
            let ghost before = rows.deep_view();
            proof {
                assert(newest_first[done as int] == post@);
                assert(newest_first.take(done + 1) =~= newest_first.take(done as int).push(post@));
                newest_first.take(done as int).lemma_filter_push(post@, owned);
            }
            if post.user_id == user_id {
                rows.push(post.clone());
                assert(rows.deep_view() =~= before.push(post@));
            }
            done += 1;
        }
        assert(newest_first.take(count as int) =~= newest_first);
        rows
    }

    /// The comments on any of the posts `post_ids`, in stored order, each
    /// with its author.
    pub fn comments_belonging_to(&self, post_ids: &Vec<i32>) -> (rows: Vec<(Comment, User)>)
        requires
            self.wf(),
        ensures
            rows.deep_view() == self@.comments_belonging_to(as_ints(post_ids@)),
    {
        let ghost parents = as_ints(post_ids@);
        let ghost row = self@.comment_row(parents);
        let count = self.comments.len();
        let mut rows: Vec<(Comment, User)> = Vec::new();
        let mut done: usize = 0;
        assert(rows.deep_view() =~= self@.comments.take(0).filter_map(row));
        while done < count
            invariant
                self.wf(),
                done <= count,
                count == self.comments.len(),
                parents == as_ints(post_ids@),
                row == self@.comment_row(parents),
                rows.deep_view() == self@.comments.take(done as int).filter_map(row),
            decreases count - done,
        {
            let comment = &self.comments[done];
            let ghost before = rows.deep_view();
            proof {
                self@.comments.lemma_filter_map_take_succ(row, done as int);
            }
            if contains_id(post_ids, comment.post_id) {
                match self.user_position(&UserKey::ID(comment.user_id)) {
                    Some(i) => {
                        proof {
                            self@.lemma_user_by(
                                crate::models::UserKeyView::ID(comment.user_id as int),
                                i as int,
                            );
                        }
                        rows.push((comment.clone(), self.users[i].clone()));
                        assert(rows.deep_view() =~= before + seq![
                            (comment@, self@.users[i as int]),
                        ]);
                    },
                    None => {},
                }
            }
            done += 1;
        }
        assert(self@.comments.take(count as int) =~= self@.comments);
        rows
    }

    /// The comments on the post `post_id`, in stored order, each with its
    /// author.
    pub fn post_comments(&self, post_id: i32) -> (rows: Vec<(Comment, User)>)
        requires
            self.wf(),
        ensures
            rows.deep_view() == self@.post_comments(post_id as int),
    {
        let mut post_ids: Vec<i32> = Vec::new();
        post_ids.push(post_id);
        assert(as_ints(post_ids@) =~= seq![post_id as int]);
        self.comments_belonging_to(&post_ids)
    }

    /// The comments that `user_id` wrote, in stored order, each with a
    /// summary of its post.
    pub fn user_comments(&self, user_id: i32) -> (rows: Vec<(Comment, PostWithComment)>)
        requires
            self.wf(),
        ensures
            rows.deep_view() == self@.user_comments(user_id as int),
    {
        let ghost row = self@.user_comment_row(user_id as int);
        let count = self.comments.len();
        let mut rows: Vec<(Comment, PostWithComment)> = Vec::new();
        let mut done: usize = 0;
        assert(rows.deep_view() =~= self@.comments.take(0).filter_map(row));
        while done < count
            invariant
                self.wf(),
                done <= count,
                count == self.comments.len(),
                row == self@.user_comment_row(user_id as int),
                rows.deep_view() == self@.comments.take(done as int).filter_map(row),
            decreases count - done,
        {
            let comment = &self.comments[done];
            let ghost before = rows.deep_view();
            proof {
                self@.comments.lemma_filter_map_take_succ(row, done as int);
            }
            if comment.user_id == user_id {
                match self.post_position(comment.post_id) {
                    Some(i) => {
                        proof {
                            self@.lemma_post_with_id(i as int);
                        }
                        rows.push((comment.clone(), self.posts[i].summary()));
                        assert(rows.deep_view() =~= before + seq![
                            (comment@, self@.posts[i as int].summary()),
                        ]);
                    },
                    None => {
                        proof {
                            crate::relation::lemma_find_row_none(
                                self@.posts,
                                |post: crate::models::PostView| post.id == comment.post_id as int,
                            );
                        }
                    },
                }
            }
            done += 1;
        }
        assert(self@.comments.take(count as int) =~= self@.comments);
        rows
    }
}


/// Whether no two of `users` share a username.
fn usernames_differ(users: &Vec<User>) -> (yes: bool)
    ensures
        yes == (forall|i: int, j: int|
            0 <= i < j < users@.len() ==> (#[trigger] users@[i]).username@ != (
            #[trigger] users@[j]).username@),
{
    let mut j: usize = 0;
    while j < users.len()
        invariant
            j <= users.len(),
            forall|a: int, b: int|
                0 <= a < b < j ==> (#[trigger] users@[a]).username@ != (
                #[trigger] users@[b]).username@,
        decreases users.len() - j,
    {
        let mut i: usize = 0;
        while i < j
            invariant
                i <= j < users.len(),
                forall|a: int|
                    0 <= a < i ==> (#[trigger] users@[a]).username@ != users@[j as int].username@,
            decreases j - i,
        {
            if users[i].username == users[j].username {
                return false;
            }
            i += 1;
        }
        j += 1;
    }
    true
}

impl Store {
    /// A store with the given tables, where they are well formed; `None`
    /// where they are not.
    pub fn from_tables(users: Vec<User>, posts: Vec<Post>, comments: Vec<Comment>) -> (store:
        Option<Store>)
        ensures
            match store {
                Some(store) => store.wf() && store@ == (StoreView {
                    users: users.deep_view(),
                    posts: posts.deep_view(),
                    comments: comments.deep_view(),
                }),
                None => !(StoreView {
                    users: users.deep_view(),
                    posts: posts.deep_view(),
                    comments: comments.deep_view(),
                }).wf(),
            },
    {
        let ghost tables = StoreView {
            users: users.deep_view(),
            posts: posts.deep_view(),
            comments: comments.deep_view(),
        };
        if !is_ascending(&users) {
            proof {
                let (i, j) = choose|i: int, j: int|
                    0 <= i < j < users@.len() && !((#[trigger] users@[i]).id < (
                    #[trigger] users@[j]).id);
                assert(!(tables.users[i].id < tables.users[j].id));
            }
            return None;
        }
        if !usernames_differ(&users) {
            proof {
                let (i, j) = choose|i: int, j: int|
                    0 <= i < j < users@.len() && (#[trigger] users@[i]).username@ == (
                    #[trigger] users@[j]).username@;
                assert(tables.users[i].username == tables.users[j].username);
            }
            return None;
        }
        if !is_ascending(&posts) {
            proof {
                let (i, j) = choose|i: int, j: int|
                    0 <= i < j < posts@.len() && !((#[trigger] posts@[i]).id < (
                    #[trigger] posts@[j]).id);
                assert(!(tables.posts[i].id < tables.posts[j].id));
            }
            return None;
        }
        if !is_ascending(&comments) {
            proof {
                let (i, j) = choose|i: int, j: int|
                    0 <= i < j < comments@.len() && !((#[trigger] comments@[i]).id < (
                    #[trigger] comments@[j]).id);
                assert(!(tables.comments[i].id < tables.comments[j].id));
            }
            return None;
        }
        proof {
            assert forall|i: int, j: int| 0 <= i < j < tables.users.len() implies (
            #[trigger] tables.users[i]).id < (#[trigger] tables.users[j]).id && tables.users[i].username
                != tables.users[j].username by {
                assert(users@[i].ident() < users@[j].ident());
                assert(users@[i].username@ != users@[j].username@);
            }
            assert forall|i: int, j: int| 0 <= i < j < tables.posts.len() implies (
            #[trigger] tables.posts[i]).id < (#[trigger] tables.posts[j]).id by {
                assert(posts@[i].ident() < posts@[j].ident());
            }
            assert forall|i: int, j: int| 0 <= i < j < tables.comments.len() implies (
            #[trigger] tables.comments[i]).id < (#[trigger] tables.comments[j]).id by {
                assert(comments@[i].ident() < comments@[j].ident());
            }
        }
        Some(Store { users, posts, comments })
    }

    /// The table of users, in the order of their identifiers.
    pub fn users(&self) -> (rows: &Vec<User>)
        ensures
            rows.deep_view() == self@.users,
    {
        &self.users
    }

    /// The table of posts, in the order of their identifiers.
    pub fn posts(&self) -> (rows: &Vec<Post>)
        ensures
            rows.deep_view() == self@.posts,
    {
        &self.posts
    }

    /// The table of comments, in the order of their identifiers.
    pub fn comments(&self) -> (rows: &Vec<Comment>)
        ensures
            rows.deep_view() == self@.comments,
    {
        &self.comments
    }
}

} // verus!
