//! The post table and its operations.
//!
//! `Table` is the table as a mathematical value: its rows in ascending order
//! of `id`, and the `id` that the next post will get. A listing shows the
//! newest post first, that is the rows in descending order of `id`. `PostStore` keeps such
//! a table in memory. `StoreCommand` and `StoreReply` are the vocabulary in
//! which a handler talks to whatever holds the table, and `Table::on` says
//! which reply to a command is right.

use vstd::prelude::*;
use crate::post::{Post, PostView};

verus! {

/// Why an operation on the table failed.
#[derive(Debug, Clone, Copy, PartialEq, Eq)]
pub enum StoreError {
    /// No post has the `id` asked for.
    NotFound,
    /// The table could not take the change.
    Storage,
}

/// The views of a sequence of posts.
pub open spec fn views_of(posts: Seq<Post>) -> Seq<PostView> {
    posts.map_values(|p: Post| p@)
}

/// An answer that may hold a post, with the post as a mathematical value.
pub open spec fn answer_view(r: Result<Post, StoreError>) -> Result<PostView, StoreError> {
    match r {
        Ok(p) => Ok(p@),
        Err(e) => Err(e),
    }
}

/// The post table as a mathematical value.
pub struct Table {
    /// The posts, in ascending order of `id`.
    pub rows: Seq<PostView>,
    /// The `id` of the next post created.
    pub next_id: int,
}

impl Table {
    /// Every `id` is at least one and was handed out before `next_id`, the
    /// rows stand in strictly ascending order of `id`, and `next_id` is at
    /// most one past the largest number that an `id` can be.
    pub open spec fn wf(self) -> bool {
        &&& 1 <= self.next_id <= i32::MAX + 1
        &&& forall|i: int|
            0 <= i < self.rows.len() ==> 1 <= (#[trigger] self.rows[i]).id < self.next_id
        &&& forall|i: int, j: int|
            0 <= i < j < self.rows.len() ==> (#[trigger] self.rows[i]).id
                < (#[trigger] self.rows[j]).id
    }

    /// The table without posts, whose first post will get the `id` one.
    pub open spec fn empty() -> Table {
        Table { rows: Seq::empty(), next_id: 1 }
    }

    /// Whether a post with this `id` is in the table.
    pub open spec fn holds(self, id: int) -> bool {
        exists|i: int| 0 <= i < self.rows.len() && (#[trigger] self.rows[i]).id == id
    }

    /// Where the post with this `id` stands, if the table holds it.
    pub open spec fn index_of(self, id: int) -> int {
        choose|i: int| 0 <= i < self.rows.len() && (#[trigger] self.rows[i]).id == id
    }

    /// The post with this `id`, if the table holds it.
    pub open spec fn find(self, id: int) -> Option<PostView> {
        if self.holds(id) {
            Some(self.rows[self.index_of(id)])
        } else {
            None
        }
    }

    /// The posts in the order of the listing: the newest first, that is in
    /// descending order of `id`.
    pub open spec fn listing(self) -> Seq<PostView> {
        Seq::new(self.rows.len(), |i: int| self.rows[self.rows.len() - 1 - i])
    }

    /// The posts of one window of the listing: at most `limit` of them,
    /// after skipping the first `offset`.
    pub open spec fn page(self, offset: int, limit: int) -> Seq<PostView>
        recommends
            0 <= offset,
            0 <= limit,
    {
        let len = self.rows.len() as int;
        let start = if offset < len {
            offset
        } else {
            len
        };
        let end = if offset + limit < len {
            offset + limit
        } else {
            len
        };
        self.listing().subrange(start, end)
    }

    /// Whether every `id` has been handed out, so that nothing can be
    /// created.
    pub open spec fn full(self) -> bool {
        self.next_id > i32::MAX
    }

    /// The table after a post with this content was created: it stands last
    /// and has the `id` that was next.
    pub open spec fn created(self, title: Seq<char>, text: Seq<char>) -> Table {
        Table {
            rows: self.rows.push(PostView { id: self.next_id, title, text }),
            next_id: self.next_id + 1,
        }
    }

    /// The table after the post with this `id` got a new title and text.
    pub open spec fn updated(self, id: int, title: Seq<char>, text: Seq<char>) -> Table {
        Table {
            rows: self.rows.update(self.index_of(id), PostView { id, title, text }),
            next_id: self.next_id,
        }
    }

    /// The table after the post with this `id` was removed.
    pub open spec fn deleted(self, id: int) -> Table {
        Table { rows: self.rows.remove(self.index_of(id)), next_id: self.next_id }
    }

    /// What a lookup of this `id` answers: the post, or `NotFound`.
    pub open spec fn on_find(self, id: int) -> Result<PostView, StoreError> {
        match self.find(id) {
            Some(p) => Ok(p),
            None => Err(StoreError::NotFound),
        }
    }

    /// What creating a post does: the table after it, and the answer. The
    /// answer is the new post, or `Storage`, with the table unchanged, once
    /// every `id` has been handed out.
    pub open spec fn on_create(self, title: Seq<char>, text: Seq<char>) -> (
        Table,
        Result<PostView, StoreError>,
    ) {
        if self.full() {
            (self, Err(StoreError::Storage))
        } else {
            (self.created(title, text), Ok(PostView { id: self.next_id, title, text }))
        }
    }

    /// What updating the post with this `id` does: the table after it, and
    /// the answer. The answer is the post as it now is, or `NotFound`, with
    /// the table unchanged.
    pub open spec fn on_update(self, id: int, title: Seq<char>, text: Seq<char>) -> (
        Table,
        Result<PostView, StoreError>,
    ) {
        if self.holds(id) {
            (self.updated(id, title, text), Ok(PostView { id, title, text }))
        } else {
            (self, Err(StoreError::NotFound))
        }
    }

    /// What deleting the post with this `id` does: the table after it, and
    /// the answer, which is `NotFound`, with the table unchanged, where no
    /// such post is there.
    pub open spec fn on_delete(self, id: int) -> (Table, Result<(), StoreError>) {
        if self.holds(id) {
            (self.deleted(id), Ok(()))
        } else {
            (self, Err(StoreError::NotFound))
        }
    }

    /// In a well-formed table a post is found where its `id` stands, and
    /// nowhere else.
    pub proof fn lemma_index_of(self, id: int, i: int)
        requires
            self.wf(),
            0 <= i < self.rows.len(),
            self.rows[i].id == id,
        ensures
            self.holds(id),
            self.index_of(id) == i,
            self.find(id) == Some(self.rows[i]),
    {
        let j = self.index_of(id);
        assert(0 <= j < self.rows.len() && self.rows[j].id == id);
        if j < i {
            assert(self.rows[j].id < self.rows[i].id);
        } else if i < j {
            assert(self.rows[i].id < self.rows[j].id);
        }
    }

    /// Creating a post keeps the table well-formed.
    pub proof fn lemma_created_wf(self, title: Seq<char>, text: Seq<char>)
        requires
            self.wf(),
            !self.full(),
        ensures
            self.created(title, text).wf(),
    {
        let after = self.created(title, text);
        assert forall|i: int, j: int| 0 <= i < j < after.rows.len() implies
            (#[trigger] after.rows[i]).id < (#[trigger] after.rows[j]).id
        by {
            if j < self.rows.len() {
                assert(self.rows[i].id < self.rows[j].id);
            } else {
                assert(self.rows[i].id < self.next_id);
            }
        }
        assert forall|i: int| 0 <= i < after.rows.len() implies 1 <= (#[trigger] after.rows[i]).id
            < after.next_id by {
            if i < self.rows.len() {
                assert(1 <= self.rows[i].id < self.next_id);
            }
        }
    }

    /// Updating a post keeps the table well-formed.
    pub proof fn lemma_updated_wf(self, id: int, title: Seq<char>, text: Seq<char>)
        requires
            self.wf(),
            self.holds(id),
        ensures
            self.updated(id, title, text).wf(),
    {
        let k = self.index_of(id);
        let after = self.updated(id, title, text);
        assert forall|i: int| 0 <= i < after.rows.len() implies (#[trigger] after.rows[i]).id
            == self.rows[i].id by {}
        assert forall|i: int, j: int| 0 <= i < j < after.rows.len() implies
            (#[trigger] after.rows[i]).id < (#[trigger] after.rows[j]).id
        by {
            assert(self.rows[i].id < self.rows[j].id);
        }
        assert forall|i: int| 0 <= i < after.rows.len() implies 1 <= (#[trigger] after.rows[i]).id
            < after.next_id by {
            assert(1 <= self.rows[i].id < self.next_id);
        }
    }

    /// Deleting a post keeps the table well-formed.
    pub proof fn lemma_deleted_wf(self, id: int)
        requires
            self.wf(),
            self.holds(id),
        ensures
            self.deleted(id).wf(),
    {
        let k = self.index_of(id);
        let after = self.deleted(id);
        assert forall|i: int| 0 <= i < after.rows.len() implies #[trigger] after.rows[i]
            == self.rows[if i < k { i } else { i + 1 }] by {}
        assert forall|i: int, j: int| 0 <= i < j < after.rows.len() implies
            (#[trigger] after.rows[i]).id < (#[trigger] after.rows[j]).id
        by {
            let a = if i < k {
                i
            } else {
                i + 1
            };
            let b = if j < k {
                j
            } else {
                j + 1
            };
            assert(self.rows[a].id < self.rows[b].id);
        }
        assert forall|i: int| 0 <= i < after.rows.len() implies 1 <= (#[trigger] after.rows[i]).id
            < after.next_id by {
            let a = if i < k {
                i
            } else {
                i + 1
            };
            assert(1 <= self.rows[a].id < self.next_id);
        }
    }
}

impl Table {
    /// A post that was created is found under the `id` it got, with the
    /// title and text it was created with, and that `id` is at least one.
    pub proof fn created_post_is_found(self, title: Seq<char>, text: Seq<char>)
        requires
            self.wf(),
        ensures
            self.on_create(title, text).1 matches Ok(p) ==> {
                &&& p.id >= 1
                &&& p.title == title
                &&& p.text == text
                &&& self.on_create(title, text).0.on_find(p.id) == Ok::<PostView, StoreError>(p)
            },
    {
        if !self.full() {
            let after = self.created(title, text);
            self.lemma_created_wf(title, text);
            after.lemma_index_of(self.next_id, self.rows.len() as int);
        }
    }

    /// A post that was updated is found under its `id` with the new title
    /// and text.
    pub proof fn updated_post_is_found(self, id: int, title: Seq<char>, text: Seq<char>)
        requires
            self.wf(),
        ensures
            self.on_update(id, title, text).1 matches Ok(p) ==> {
                &&& p == PostView { id, title, text }
                &&& self.on_update(id, title, text).0.on_find(id) == Ok::<PostView, StoreError>(p)
            },
    {
        if self.holds(id) {
            let after = self.updated(id, title, text);
            self.lemma_updated_wf(id, title, text);
            after.lemma_index_of(id, self.index_of(id));
        }
    }

    /// After a post was deleted, a lookup of its `id` answers `NotFound`, and
    /// so does a second delete, which leaves the table as it is.
    pub proof fn deleted_post_is_gone(self, id: int)
        requires
            self.wf(),
        ensures
            self.on_delete(id).1 is Ok ==> {
                let after = self.on_delete(id).0;
                &&& after.on_find(id) == Err::<PostView, StoreError>(StoreError::NotFound)
                &&& after.on_delete(id) == (after, Err::<(), StoreError>(StoreError::NotFound))
            },
    {
        if self.holds(id) {
            let k = self.index_of(id);
            let after = self.deleted(id);
            assert forall|i: int| 0 <= i < after.rows.len() implies (#[trigger] after.rows[i]).id
                != id by {
                let a = if i < k {
                    i
                } else {
                    i + 1
                };
                assert(after.rows[i] == self.rows[a]);
                if a < k {
                    assert(self.rows[a].id < self.rows[k].id);
                } else {
                    assert(self.rows[k].id < self.rows[a].id);
                }
            }
        }
    }

    /// A window of the listing holds at most `limit` posts, each of them a
    /// post of the table, and a newer post before every older one.
    pub proof fn window_is_bounded_and_ordered(self, offset: int, limit: int)
        requires
            self.wf(),
            0 <= offset,
            0 <= limit,
        ensures
            self.page(offset, limit).len() <= limit,
            forall|i: int|
                0 <= i < self.page(offset, limit).len() ==> self.find(
                    (#[trigger] self.page(offset, limit)[i]).id,
                ) == Some(self.page(offset, limit)[i]),
            forall|i: int, j: int|
                0 <= i < j < self.page(offset, limit).len() ==> (#[trigger] self.page(
                    offset,
                    limit,
                )[i]).id > (#[trigger] self.page(offset, limit)[j]).id,
    {
        let window = self.page(offset, limit);
        let len = self.rows.len() as int;
        let start = if offset < len {
            offset
        } else {
            len
        };
        assert forall|i: int| 0 <= i < window.len() implies self.find((#[trigger] window[i]).id)
            == Some(window[i]) by {
            self.lemma_index_of(window[i].id, len - 1 - (start + i));
        }
        assert forall|i: int, j: int| 0 <= i < j < window.len() implies (#[trigger] window[i]).id
            > (#[trigger] window[j]).id by {
            assert(self.rows[len - 1 - (start + j)].id < self.rows[len - 1 - (start + i)].id);
        }
    }

    /// The post created last stands first in the listing.
    pub proof fn created_post_is_listed_first(self, title: Seq<char>, text: Seq<char>, limit: int)
        requires
            self.wf(),
            !self.full(),
            limit >= 1,
        ensures
            self.created(title, text).page(0, limit).len() >= 1,
            self.created(title, text).page(0, limit)[0] == (PostView {
                id: self.next_id,
                title,
                text,
            }),
    {
    }

    /// Creating, updating or deleting a post leaves every other post as it
    /// was.
    pub proof fn other_posts_are_kept(self, id: int, other: int, title: Seq<char>, text: Seq<char>)
        requires
            self.wf(),
            other != id,
        ensures
            self.on_update(id, title, text).0.find(other) == self.find(other),
            self.on_delete(id).0.find(other) == self.find(other),
            other != self.next_id ==> self.on_create(title, text).0.find(other) == self.find(other),
    {
        if self.holds(id) {
            let k = self.index_of(id);
            let up = self.updated(id, title, text);
            let del = self.deleted(id);
            self.lemma_updated_wf(id, title, text);
            self.lemma_deleted_wf(id);
            if self.holds(other) {
                let m = self.index_of(other);
                up.lemma_index_of(other, m);
                let d = if m < k {
                    m
                } else {
                    m - 1
                };
                assert(del.rows[d] == self.rows[m]);
                del.lemma_index_of(other, d);
            } else {
                if up.holds(other) {
                    let m = up.index_of(other);
                    assert(self.rows[m].id == other);
                }
                if del.holds(other) {
                    let m = del.index_of(other);
                    let a = if m < k {
                        m
                    } else {
                        m + 1
                    };
                    assert(self.rows[a].id == other);
                }
            }
        }
        if !self.full() && other != self.next_id {
            let cr = self.created(title, text);
            self.lemma_created_wf(title, text);
            if self.holds(other) {
                let m = self.index_of(other);
                assert(cr.rows[m] == self.rows[m]);
                cr.lemma_index_of(other, m);
            } else if cr.holds(other) {
                let m = cr.index_of(other);
                assert(m < self.rows.len());
                assert(self.rows[m].id == other);
            }
        }
    }
}

/// A post table held in memory.
#[derive(Debug)]
pub struct PostStore {
    rows: Vec<Post>,
    next_id: i64,
}

impl View for PostStore {
    type V = Table;

    closed spec fn view(&self) -> Table {
        Table { rows: views_of(self.rows@), next_id: self.next_id as int }
    }
}

impl PostStore {
    /// The table held is well-formed.
    pub open spec fn wf(&self) -> bool {
        self@.wf()
    }

    /// A store whose table is empty.
    pub fn new() -> (store: PostStore)
        ensures
            store.wf(),
            store@ == Table::empty(),
    {
        let store = PostStore { rows: Vec::new(), next_id: 1 };
        assert(store@.rows =~= Seq::<PostView>::empty());
        store
    }

    /// A store whose table is empty and whose first post will get the `id`
    /// `first_id`, if that is at least one.
    pub fn starting_at(first_id: i32) -> (made: Option<PostStore>)
        ensures
            made is Some <==> first_id >= 1,
            made matches Some(store) ==> store.wf() && store@ == (Table {
                rows: Seq::empty(),
                next_id: first_id as int,
            }),
    {
        if first_id >= 1 {
            let store = PostStore { rows: Vec::new(), next_id: first_id as i64 };
            assert(store@.rows =~= Seq::<PostView>::empty());
            Some(store)
        } else {
            None
        }
    }

    /// Where the post with this `id` stands, found by bisection.
    fn locate(&self, id: i32) -> (at: Option<usize>)
        requires
            self.wf(),
        ensures
            match at {
                Some(i) => i < self.rows.len() && self.rows[i as int].id == id && self@.holds(
                    id as int,
                ) && self@.index_of(id as int) == i,
                None => !self@.holds(id as int),
            },
    {
        let mut low: usize = 0;
        let mut high: usize = self.rows.len();
        while low < high
            invariant
                self.wf(),
                low <= high <= self.rows.len(),
                forall|j: int| 0 <= j < low ==> (#[trigger] self.rows[j]).id < id,
                forall|j: int| high <= j < self.rows.len() ==> (#[trigger] self.rows[j]).id > id,
            decreases high - low,
        {
            let middle: usize = low + (high - low) / 2;
            let found: i32 = self.rows[middle].id;
            proof {
                assert(self@.rows[middle as int].id == found);
                assert forall|j: int| 0 <= j < self.rows.len() implies {
                    &&& j < middle ==> (#[trigger] self.rows[j]).id < found
                    &&& middle < j ==> found < self.rows[j].id
                } by {
                    assert(self@.rows[j].id == self.rows[j].id);
                }
            }
            if found == id {
                proof {
                    self@.lemma_index_of(id as int, middle as int);
                }
                return Some(middle);
            } else if found < id {
                low = middle + 1;
            } else {
                high = middle;
            }
        }
        proof {
            assert forall|j: int| 0 <= j < self@.rows.len() implies (#[trigger] self@.rows[j]).id
                != id by {
                assert(self@.rows[j].id == self.rows[j].id);
            }
        }
        None
    }

    /// The number of posts in the table.
    pub fn count(&self) -> (n: u64)
        ensures
            n == self@.rows.len(),
    {
        self.rows.len() as u64
    }

    /// The posts of one window of the listing, which shows the newest post
    /// first: at most `limit` of them, in descending order of `id`, after
    /// skipping the first `offset`. Empty where the table has no more than
    /// `offset` posts.
    pub fn list(&self, offset: u64, limit: u64) -> (posts: Vec<Post>)
        ensures
            views_of(posts@) == self@.page(offset as int, limit as int),
    {
        let len: usize = self.rows.len();
        let start: usize = if offset < len as u64 {
            offset as usize
        } else {
            len
        };
        let end: usize = if limit < (len - start) as u64 {
            start + limit as usize
        } else {
            len
        };
        let mut posts: Vec<Post> = Vec::new();
        let mut i: usize = start;
        while i < end
            invariant
                start <= i <= end <= len,
                len == self.rows.len(),
                posts@.len() == i - start,
                forall|j: int|
                    0 <= j < i - start ==> #[trigger] posts@[j] == self.rows@[len - 1 - start - j],
            decreases end - i,
        {
            posts.push(self.rows[len - 1 - i].clone());
            i += 1;
        }
        assert(views_of(posts@) =~= self@.page(offset as int, limit as int));
        posts
    }

    /// The post with this `id`, or `NotFound`.
    pub fn find_by_id(&self, id: i32) -> (r: Result<Post, StoreError>)
        requires
            self.wf(),
        ensures
            answer_view(r) == self@.on_find(id as int),
    {
        match self.locate(id) {
            Some(i) => Ok(self.rows[i].clone()),
            None => Err(StoreError::NotFound),
        }
    }

    /// Creates a post with this content and gives it back with the `id` it
    /// got. Fails with `Storage`, and changes nothing, once every `id` has
    /// been handed out.
    pub fn create(&mut self, title: String, text: String) -> (r: Result<Post, StoreError>)
        requires
            old(self).wf(),
        ensures
            final(self).wf(),
            (final(self)@, answer_view(r)) == old(self)@.on_create(title@, text@),
    {
        if self.next_id > i32::MAX as i64 {
            return Err(StoreError::Storage);
        }
        let id: i32 = self.next_id as i32;
        let post = Post { id, title, text };
        let copy = post.clone();
        proof {
            old(self)@.lemma_created_wf(title@, text@);
        }
        self.next_id = self.next_id + 1;
        self.rows.push(post);
        assert(self@.rows =~= old(self)@.rows.push(copy@));
        Ok(copy)
    }

    /// Replaces title and text of the post with this `id` and gives the new
    /// post back, or fails with `NotFound` and changes nothing.
    pub fn update(&mut self, id: i32, title: String, text: String) -> (r: Result<Post, StoreError>)
        requires
            old(self).wf(),
        ensures
            final(self).wf(),
            (final(self)@, answer_view(r)) == old(self)@.on_update(id as int, title@, text@),
    {
        match self.locate(id) {
            Some(i) => {
                let post = Post { id, title, text };
                let copy = post.clone();
                proof {
                    old(self)@.lemma_updated_wf(id as int, title@, text@);
                }
                self.rows.set(i, post);
                assert(self@.rows =~= old(self)@.rows.update(i as int, copy@));
                Ok(copy)
            },
            None => Err(StoreError::NotFound),
        }
    }

    /// Removes the post with this `id`, or fails with `NotFound` and changes
    /// nothing.
    pub fn delete(&mut self, id: i32) -> (r: Result<(), StoreError>)
        requires
            old(self).wf(),
        ensures
            final(self).wf(),
            (final(self)@, r) == old(self)@.on_delete(id as int),
    {
        match self.locate(id) {
            Some(i) => {
                proof {
                    old(self)@.lemma_deleted_wf(id as int);
                }
                let _ = self.rows.remove(i);
                assert(self@.rows =~= old(self)@.rows.remove(i as int));
                Ok(())
            },
            None => Err(StoreError::NotFound),
        }
    }
}

/// What a handler asks of the table.
#[derive(Debug, PartialEq, Eq)]
pub enum StoreCommand {
    /// The posts of one window, and the number of posts in all.
    List { offset: u64, limit: u64 },
    /// The post with this `id`.
    Find { id: i32 },
    /// A new post with this content.
    Create { title: String, text: String },
    /// A new title and text for the post with this `id`.
    Update { id: i32, title: String, text: String },
    /// The removal of the post with this `id`.
    Delete { id: i32 },
}

/// What the table answers.
#[derive(Debug, PartialEq, Eq)]
pub enum StoreReply {
    /// The posts of the window asked for, and the number of posts in all.
    Listed { posts: Vec<Post>, total: u64 },
    /// The post asked for.
    Found { post: Post },
    /// The post that was created.
    Created { post: Post },
    /// The post as it is after the update.
    Updated { post: Post },
    /// The post was removed.
    Deleted,
    /// No post has the `id` asked for.
    NotFound,
    /// The table could not do what was asked.
    Failed,
}

/// A command as a mathematical value.
pub enum CommandView {
    List { offset: int, limit: int },
    Find { id: int },
    Create { title: Seq<char>, text: Seq<char> },
    Update { id: int, title: Seq<char>, text: Seq<char> },
    Delete { id: int },
}

/// A reply as a mathematical value.
pub enum ReplyView {
    Listed { posts: Seq<PostView>, total: int },
    Found { post: PostView },
    Created { post: PostView },
    Updated { post: PostView },
    Deleted,
    NotFound,
    Failed,
}

impl View for StoreCommand {
    type V = CommandView;

    open spec fn view(&self) -> CommandView {
        match *self {
            StoreCommand::List { offset, limit } => CommandView::List {
                offset: offset as int,
                limit: limit as int,
            },
            StoreCommand::Find { id } => CommandView::Find { id: id as int },
            StoreCommand::Create { title, text } => CommandView::Create {
                title: title@,
                text: text@,
            },
            StoreCommand::Update { id, title, text } => CommandView::Update {
                id: id as int,
                title: title@,
                text: text@,
            },
            StoreCommand::Delete { id } => CommandView::Delete { id: id as int },
        }
    }
}

impl View for StoreReply {
    type V = ReplyView;

    open spec fn view(&self) -> ReplyView {
        match *self {
            StoreReply::Listed { posts, total } => ReplyView::Listed {
                posts: views_of(posts@),
                total: total as int,
            },
            StoreReply::Found { post } => ReplyView::Found { post: post@ },
            StoreReply::Created { post } => ReplyView::Created { post: post@ },
            StoreReply::Updated { post } => ReplyView::Updated { post: post@ },
            StoreReply::Deleted => ReplyView::Deleted,
            StoreReply::NotFound => ReplyView::NotFound,
            StoreReply::Failed => ReplyView::Failed,
        }
    }
}

impl StoreReply {
    /// The reply to a lookup that gave this row, or none.
    pub fn found(row: Option<Post>) -> (reply: StoreReply)
        ensures
            reply@ == match row {
                Some(post) => ReplyView::Found { post: post@ },
                None => ReplyView::NotFound,
            },
    {
        match row {
            Some(post) => StoreReply::Found { post },
            None => StoreReply::NotFound,
        }
    }

    /// The reply to a removal that took this many rows away.
    pub fn removed(rows: u64) -> (reply: StoreReply)
        ensures
            reply@ == if rows == 0 {
                ReplyView::NotFound
            } else {
                ReplyView::Deleted
            },
    {
        if rows == 0 {
            StoreReply::NotFound
        } else {
            StoreReply::Deleted
        }
    }
}

impl Table {
    /// What a command does: the table after it, and the right reply. A
    /// listing gives the window and the number of posts in all; a lookup the
    /// post or `NotFound`; a creation the new post, or `Failed` once every
    /// `id` has been handed out; an update the post as it now is, or
    /// `NotFound`; a removal `Deleted` or `NotFound`.
    pub open spec fn on(self, command: CommandView) -> (Table, ReplyView) {
        match command {
            CommandView::List { offset, limit } => (
                self,
                ReplyView::Listed {
                    posts: self.page(offset, limit),
                    total: self.rows.len() as int,
                },
            ),
            CommandView::Find { id } => (
                self,
                match self.on_find(id) {
                    Ok(post) => ReplyView::Found { post },
                    Err(_) => ReplyView::NotFound,
                },
            ),
            CommandView::Create { title, text } => (
                self.on_create(title, text).0,
                match self.on_create(title, text).1 {
                    Ok(post) => ReplyView::Created { post },
                    Err(_) => ReplyView::Failed,
                },
            ),
            CommandView::Update { id, title, text } => (
                self.on_update(id, title, text).0,
                match self.on_update(id, title, text).1 {
                    Ok(post) => ReplyView::Updated { post },
                    Err(_) => ReplyView::NotFound,
                },
            ),
            CommandView::Delete { id } => (
                self.on_delete(id).0,
                match self.on_delete(id).1 {
                    Ok(_) => ReplyView::Deleted,
                    Err(_) => ReplyView::NotFound,
                },
            ),
        }
    }

    /// Whatever the command, the table stays well-formed.
    pub proof fn lemma_on_wf(self, command: CommandView)
        requires
            self.wf(),
        ensures
            self.on(command).0.wf(),
    {
        match command {
            CommandView::Create { title, text } => {
                if !self.full() {
                    self.lemma_created_wf(title, text);
                }
            },
            CommandView::Update { id, title, text } => {
                if self.holds(id) {
                    self.lemma_updated_wf(id, title, text);
                }
            },
            CommandView::Delete { id } => {
                if self.holds(id) {
                    self.lemma_deleted_wf(id);
                }
            },
            _ => {},
        }
    }
}

impl PostStore {
    /// Does what the command asks and gives the reply.
    pub fn execute(&mut self, command: StoreCommand) -> (reply: StoreReply)
        requires
            old(self).wf(),
        ensures
            final(self).wf(),
            (final(self)@, reply@) == old(self)@.on(command@),
    {
        match command {
            StoreCommand::List { offset, limit } => {
                let posts = self.list(offset, limit);
                let total: u64 = self.count();
                StoreReply::Listed { posts, total }
            },
            StoreCommand::Find { id } => match self.find_by_id(id) {
                Ok(post) => StoreReply::Found { post },
                Err(_) => StoreReply::NotFound,
            },
            StoreCommand::Create { title, text } => match self.create(title, text) {
                Ok(post) => StoreReply::Created { post },
                Err(_) => StoreReply::Failed,
            },
            StoreCommand::Update { id, title, text } => match self.update(id, title, text) {
                Ok(post) => StoreReply::Updated { post },
                Err(_) => StoreReply::NotFound,
            },
            StoreCommand::Delete { id } => match self.delete(id) {
                Ok(_) => StoreReply::Deleted,
                Err(_) => StoreReply::NotFound,
            },
        }
    }
}

} // verus!
