//! An in-memory comment store: the rows of comments in the order they were
//! written, the users that may author them and the posts they hang on. It
//! answers the questions that the comment operations put to a relational
//! store, and is what their contracts are stated over. Reads come in the
//! order of the rows' timestamps, whatever the order they were written in.

use crate::comment::model::{Comment, CommentAuthor, CommentAuthorView, CommentView};
use crate::ident::UserId;
use std::collections::HashMap;
use vstd::prelude::*;
use vstd::string::*;

verus! {

/// A comment that is about to be written: everything but the id.
#[derive(Debug, PartialEq, Eq)]
pub struct NewComment {
    pub post_id: i64,
    pub user_id: UserId,
    pub parent_comment_id: Option<i64>,
    pub content: String,
    pub content_html: String,
    pub markdown_enabled: bool,
    pub nesting_level: i32,
    pub created_at: i64,
}

/// The mathematical content of a [`NewComment`].
pub struct NewCommentView {
    pub post_id: i64,
    pub user_id: UserId,
    pub parent_comment_id: Option<i64>,
    pub content: Seq<char>,
    pub content_html: Seq<char>,
    pub markdown_enabled: bool,
    pub nesting_level: i32,
    pub created_at: i64,
}

impl View for NewComment {
    type V = NewCommentView;

    open spec fn view(&self) -> NewCommentView {
        NewCommentView {
            post_id: self.post_id,
            user_id: self.user_id,
            parent_comment_id: self.parent_comment_id,
            content: self.content@,
            content_html: self.content_html@,
            markdown_enabled: self.markdown_enabled,
            nesting_level: self.nesting_level,
            created_at: self.created_at,
        }
    }
}

/// A comment together with its resolved author, as a read hands it out.
#[derive(Debug, PartialEq, Eq)]
pub struct CommentRow {
    pub comment: Comment,
    pub author: CommentAuthor,
}

/// The mathematical content of a [`CommentRow`].
pub struct CommentRowView {
    pub comment: CommentView,
    pub author: CommentAuthorView,
}

impl View for CommentRow {
    type V = CommentRowView;

    open spec fn view(&self) -> CommentRowView {
        CommentRowView { comment: self.comment@, author: self.author@ }
    }
}

impl Clone for CommentRow {
    fn clone(&self) -> (r: Self)
        ensures
            r@ == self@,
    {
        CommentRow { comment: self.comment.clone(), author: self.author.clone() }
    }
}

/// The views of a list of rows, in order.
pub open spec fn row_views(rows: Seq<CommentRow>) -> Seq<CommentRowView> {
    rows.map_values(|r: CommentRow| r@)
}

/// The views of a list of comments, in order.
pub open spec fn comment_views(comments: Seq<Comment>) -> Seq<CommentView> {
    comments.map_values(|c: Comment| c@)
}

/// Which comments a read asks for.
pub enum Selection {
    /// The roots of a post that are not deleted.
    LiveRootsOf(i64),
    /// The replies to one comment that are not deleted.
    LiveRepliesTo(i64),
    /// The replies to any of several comments that are not deleted.
    LiveRepliesToAny(Seq<i64>),
    /// All comments of a post that are not deleted.
    LiveOnPost(i64),
}

impl Selection {
    /// Whether the selection takes the comment.
    pub open spec fn takes(self, c: CommentView) -> bool {
        match self {
            Selection::LiveRootsOf(post_id) => c.post_id == post_id && c.parent_comment_id is None
                && !c.is_deleted,
            Selection::LiveRepliesTo(parent) => c.parent_comment_id == Some(parent)
                && !c.is_deleted,
            Selection::LiveRepliesToAny(parents) => c.parent_comment_id is Some && parents.contains(
                c.parent_comment_id->0,
            ) && !c.is_deleted,
            Selection::LiveOnPost(post_id) => c.post_id == post_id && !c.is_deleted,
        }
    }
}

/// The comments that a selection takes, in the order they stand in.
pub open spec fn selected(comments: Seq<CommentView>, which: Selection) -> Seq<CommentView>
    decreases comments.len(),
{
    if comments.len() == 0 {
        Seq::empty()
    } else {
        let rest = selected(comments.drop_last(), which);
        if which.takes(comments.last()) {
            rest.push(comments.last())
        } else {
            rest
        }
    }
}

/// Selecting from a list with one more comment at its end.
pub proof fn lemma_selected_push(comments: Seq<CommentView>, c: CommentView, which: Selection)
    ensures
        selected(comments.push(c), which) == if which.takes(c) {
            selected(comments, which).push(c)
        } else {
            selected(comments, which)
        },
{
    assert(comments.push(c).drop_last() =~= comments);
}

/// Every selected comment is taken by the selection and stands in the
/// list, and every comment of the list that the selection takes is among
/// the selected.
pub proof fn lemma_selected_members(comments: Seq<CommentView>, which: Selection)
    ensures
        selected(comments, which).len() <= comments.len(),
        forall|k: int|
            0 <= k < selected(comments, which).len() ==> which.takes(
                #[trigger] selected(comments, which)[k],
            ) && comments.contains(selected(comments, which)[k]),
        forall|i: int|
            0 <= i < comments.len() && which.takes(comments[i]) ==> selected(
                comments,
                which,
            ).contains(#[trigger] comments[i]),
    decreases comments.len(),
{
    if comments.len() > 0 {
        let front = comments.drop_last();
        lemma_selected_members(front, which);
        let s = selected(comments, which);
        let r = selected(front, which);
        assert forall|k: int| 0 <= k < s.len() implies which.takes(#[trigger] s[k])
            && comments.contains(s[k]) by {
            if k < r.len() {
                assert(s[k] == r[k]);
                let j = choose|j: int| 0 <= j < front.len() && front[j] == r[k];
                assert(comments[j] == r[k]);
            } else {
                assert(s[k] == comments.last());
                assert(comments[comments.len() - 1] == s[k]);
            }
        }
        assert forall|i: int| 0 <= i < comments.len() && which.takes(comments[i]) implies s.contains(
            #[trigger] comments[i],
        ) by {
            if i < front.len() {
                assert(front[i] == comments[i]);
                assert(r.contains(front[i]));
                let k = choose|k: int| 0 <= k < r.len() && r[k] == front[i];
                assert(s[k] == comments[i]);
            } else {
                assert(s[s.len() - 1] == comments[i]);
            }
        }
    }
}

/// Whether `a` is read no later than `b` when rows are read oldest first:
/// the earlier timestamp comes first, and of two rows with the same
/// timestamp the one with the smaller id.
pub open spec fn no_later(a: CommentView, b: CommentView) -> bool {
    a.created_at < b.created_at || (a.created_at == b.created_at && a.id <= b.id)
}

/// Whether rows stand in reading order, oldest first.
pub open spec fn in_time_order(rows: Seq<CommentView>) -> bool {
    forall|i: int, j: int|
        0 <= i < j < rows.len() ==> no_later(#[trigger] rows[i], #[trigger] rows[j])
}

/// Rows in reading order with one more row put where it belongs: behind
/// every row that is read no later than it.
pub open spec fn placed(sorted: Seq<CommentView>, c: CommentView) -> Seq<CommentView>
    decreases sorted.len(),
{
    if sorted.len() == 0 {
        seq![c]
    } else if no_later(sorted.last(), c) {
        sorted.push(c)
    } else {
        placed(sorted.drop_last(), c).push(sorted.last())
    }
}

/// The rows in reading order, oldest first.
pub open spec fn oldest_first(rows: Seq<CommentView>) -> Seq<CommentView>
    decreases rows.len(),
{
    if rows.len() == 0 {
        Seq::empty()
    } else {
        placed(oldest_first(rows.drop_last()), rows.last())
    }
}

/// Putting a row in place adds that row and no other, and keeps the
/// reading order.
pub proof fn lemma_placed(sorted: Seq<CommentView>, c: CommentView)
    ensures
        placed(sorted, c).len() == sorted.len() + 1,
        forall|x: CommentView| #[trigger]
            placed(sorted, c).contains(x) <==> sorted.contains(x) || x == c,
        in_time_order(sorted) ==> in_time_order(placed(sorted, c)),
    decreases sorted.len(),
{
    let p = placed(sorted, c);
    if sorted.len() == 0 {
        assert(p[0] == c);
        assert forall|x: CommentView| #[trigger] p.contains(x) <==> sorted.contains(x) || x == c by {
            if x == c {
                assert(p[0] == x);
            }
        }
    } else if no_later(sorted.last(), c) {
        assert forall|x: CommentView| #[trigger] p.contains(x) <==> sorted.contains(x) || x == c by {
            if p.contains(x) {
                let i = choose|i: int| 0 <= i < p.len() && p[i] == x;
                if i < sorted.len() {
                    assert(sorted[i] == x);
                }
            }
            if sorted.contains(x) {
                let i = choose|i: int| 0 <= i < sorted.len() && sorted[i] == x;
                assert(p[i] == x);
            }
            if x == c {
                assert(p[p.len() - 1] == x);
            }
        }
        if in_time_order(sorted) {
            assert forall|i: int, j: int| 0 <= i < j < p.len() implies no_later(
                #[trigger] p[i],
                #[trigger] p[j],
            ) by {
                if j < sorted.len() {
                    assert(no_later(sorted[i], sorted[j]));
                } else if i < sorted.len() - 1 {
                    assert(no_later(sorted[i], sorted[sorted.len() - 1]));
                }
            }
        }
    } else {
        let front = sorted.drop_last();
        let q = placed(front, c);
        lemma_placed(front, c);
        assert forall|x: CommentView| #[trigger] p.contains(x) <==> sorted.contains(x) || x == c by {
            if p.contains(x) {
                let i = choose|i: int| 0 <= i < p.len() && p[i] == x;
                if i < q.len() {
                    assert(q[i] == x);
                    assert(q.contains(x));
                    if front.contains(x) {
                        let k = choose|k: int| 0 <= k < front.len() && front[k] == x;
                        assert(sorted[k] == x);
                    }
                } else {
                    assert(sorted[sorted.len() - 1] == x);
                }
            }
            if sorted.contains(x) {
                let i = choose|i: int| 0 <= i < sorted.len() && sorted[i] == x;
                if i < front.len() {
                    assert(front[i] == x);
                    assert(q.contains(x));
                    let k = choose|k: int| 0 <= k < q.len() && q[k] == x;
                    assert(p[k] == x);
                } else {
                    assert(p[p.len() - 1] == x);
                }
            }
            if x == c {
                assert(q.contains(c));
                let k = choose|k: int| 0 <= k < q.len() && q[k] == c;
                assert(p[k] == x);
            }
        }
        if in_time_order(sorted) {
            assert forall|i: int, j: int| 0 <= i < j < front.len() implies no_later(
                #[trigger] front[i],
                #[trigger] front[j],
            ) by {
                assert(front[i] == sorted[i] && front[j] == sorted[j]);
            }
            assert forall|i: int, j: int| 0 <= i < j < p.len() implies no_later(
                #[trigger] p[i],
                #[trigger] p[j],
            ) by {
                if j < q.len() {
                    assert(p[i] == q[i] && p[j] == q[j]);
                } else {
                    assert(p[j] == sorted.last());
                    assert(p[i] == q[i]);
                    assert(q.contains(q[i]));
                    if front.contains(q[i]) {
                        let k = choose|k: int| 0 <= k < front.len() && front[k] == q[i];
                        assert(no_later(sorted[k], sorted[sorted.len() - 1]));
                    }
                }
            }
        }
    }
}

/// Where a row is put: right behind the last row that is read no later
/// than it.
pub proof fn lemma_placed_at(sorted: Seq<CommentView>, c: CommentView, at: int)
    requires
        0 <= at <= sorted.len(),
        at > 0 ==> no_later(sorted[at - 1], c),
        forall|k: int| at <= k < sorted.len() ==> !no_later(#[trigger] sorted[k], c),
    ensures
        placed(sorted, c) == sorted.insert(at, c),
    decreases sorted.len(),
{
    if sorted.len() == 0 {
        assert(placed(sorted, c) =~= sorted.insert(at, c));
    } else if at == sorted.len() {
        assert(placed(sorted, c) =~= sorted.insert(at, c));
    } else {
        let front = sorted.drop_last();
        assert(!no_later(sorted[sorted.len() - 1], c));
        assert(at > 0 ==> front[at - 1] == sorted[at - 1]);
        assert forall|k: int| at <= k < front.len() implies !no_later(#[trigger] front[k], c) by {
            assert(front[k] == sorted[k]);
        }
        lemma_placed_at(front, c, at);
        assert(front.insert(at, c).push(sorted.last()) =~= sorted.insert(at, c));
    }
}

/// Reading order holds the same rows, each as often as before, in time
/// order.
pub proof fn lemma_oldest_first(rows: Seq<CommentView>)
    ensures
        oldest_first(rows).len() == rows.len(),
        forall|x: CommentView| #[trigger] oldest_first(rows).contains(x) <==> rows.contains(x),
        in_time_order(oldest_first(rows)),
    decreases rows.len(),
{
    if rows.len() > 0 {
        let front = rows.drop_last();
        lemma_oldest_first(front);
        lemma_placed(oldest_first(front), rows.last());
        assert forall|x: CommentView| #[trigger]
            oldest_first(rows).contains(x) <==> rows.contains(x) by {
            if rows.contains(x) {
                let i = choose|i: int| 0 <= i < rows.len() && rows[i] == x;
                if i < front.len() {
                    assert(front[i] == x);
                }
            }
            if front.contains(x) {
                let i = choose|i: int| 0 <= i < front.len() && front[i] == x;
                assert(rows[i] == x);
            }
            if x == rows.last() {
                assert(rows[rows.len() - 1] == x);
            }
        }
    }
}

/// A row that is read no earlier than all the others comes last.
pub proof fn lemma_oldest_first_push(rows: Seq<CommentView>, c: CommentView)
    requires
        forall|i: int| 0 <= i < rows.len() ==> no_later(#[trigger] rows[i], c),
    ensures
        oldest_first(rows.push(c)) == oldest_first(rows).push(c),
{
    assert(rows.push(c).drop_last() =~= rows);
    let s = oldest_first(rows);
    lemma_oldest_first(rows);
    if s.len() > 0 {
        assert(s.contains(s[s.len() - 1]));
        assert(rows.contains(s.last()));
    } else {
        assert(seq![c] =~= s.push(c));
    }
}

/// Selecting from rows in reading order with one more row put in place is
/// putting that row in place among the selected, if the selection takes
/// it.
pub proof fn lemma_placed_selected(sorted: Seq<CommentView>, c: CommentView, which: Selection)
    requires
        in_time_order(sorted),
    ensures
        selected(placed(sorted, c), which) == if which.takes(c) {
            placed(selected(sorted, which), c)
        } else {
            selected(sorted, which)
        },
    decreases sorted.len(),
{
    let chosen = selected(sorted, which);
    if sorted.len() == 0 {
        assert(seq![c].drop_last() =~= Seq::<CommentView>::empty());
        assert(selected(Seq::<CommentView>::empty(), which) =~= Seq::<CommentView>::empty());
        assert(seq![c] =~= Seq::<CommentView>::empty().push(c));
    } else if no_later(sorted.last(), c) {
        lemma_selected_push(sorted, c, which);
        lemma_selected_members(sorted, which);
        if which.takes(c) {
            if chosen.len() > 0 {
                assert(sorted.contains(chosen[chosen.len() - 1]));
                let k = choose|k: int| 0 <= k < sorted.len() && sorted[k] == chosen.last();
                if k < sorted.len() - 1 {
                    assert(no_later(sorted[k], sorted[sorted.len() - 1]));
                }
            } else {
                assert(seq![c] =~= chosen.push(c));
            }
        }
    } else {
        let front = sorted.drop_last();
        let last = sorted.last();
        assert forall|i: int, j: int| 0 <= i < j < front.len() implies no_later(
            #[trigger] front[i],
            #[trigger] front[j],
        ) by {
            assert(front[i] == sorted[i] && front[j] == sorted[j]);
        }
        lemma_placed_selected(front, c, which);
        lemma_selected_push(placed(front, c), last, which);
        if which.takes(c) && which.takes(last) {
            assert(selected(front, which).push(last).drop_last() =~= selected(front, which));
        }
    }
}

/// Selecting and putting into reading order can be done in either order.
pub proof fn lemma_oldest_first_selected(rows: Seq<CommentView>, which: Selection)
    ensures
        selected(oldest_first(rows), which) == oldest_first(selected(rows, which)),
    decreases rows.len(),
{
    if rows.len() > 0 {
        let front = rows.drop_last();
        lemma_oldest_first_selected(front, which);
        lemma_oldest_first(front);
        lemma_placed_selected(oldest_first(front), rows.last(), which);
        if which.takes(rows.last()) {
            assert(selected(front, which).push(rows.last()).drop_last() =~= selected(front, which));
        }
    } else {
        assert(selected(Seq::<CommentView>::empty(), which) =~= Seq::<CommentView>::empty());
    }
}

/// Replacing one row changes the number of selected rows by what the old
/// row and the new row contribute.
pub proof fn lemma_selected_len_update(
    comments: Seq<CommentView>,
    k: int,
    row: CommentView,
    which: Selection,
)
    requires
        0 <= k < comments.len(),
    ensures
        selected(comments.update(k, row), which).len() == selected(comments, which).len() - (
        if which.takes(comments[k]) {
            1int
        } else {
            0int
        }) + (if which.takes(row) {
            1int
        } else {
            0int
        }),
    decreases comments.len(),
{
    let after = comments.update(k, row);
    if k == comments.len() - 1 {
        assert(after.drop_last() =~= comments.drop_last());
    } else {
        assert(after.drop_last() =~= comments.drop_last().update(k, row));
        assert(after.last() == comments.last());
        lemma_selected_len_update(comments.drop_last(), k, row, which);
    }
}

/// Selecting twice is selecting once, when everything the second selection
/// takes the first one takes too.
pub proof fn lemma_selected_twice(comments: Seq<CommentView>, first: Selection, second: Selection)
    requires
        forall|c: CommentView| second.takes(c) ==> first.takes(c),
    ensures
        selected(selected(comments, first), second) == selected(comments, second),
    decreases comments.len(),
{
    if comments.len() > 0 {
        let front = comments.drop_last();
        lemma_selected_twice(front, first, second);
        if first.takes(comments.last()) {
            lemma_selected_push(selected(front, first), comments.last(), second);
        }
    }
}

/// The store as a mathematical value.
pub struct StoreView {
    /// The rows of comments, in the order they were written.
    pub comments: Seq<CommentView>,
    /// The display name of every user, by the value of their identifier.
    pub users: Map<u128, Seq<char>>,
    /// For every post whether it has been deleted.
    pub posts: Map<i64, bool>,
    /// The id that the next comment gets.
    pub next_id: i64,
}

/// What deleting does to a row: the flag is set, the content gives way to
/// a marker, and who deleted it and when is recorded.
pub open spec fn deleted_row(c: CommentView, by: UserId, at: i64) -> CommentView {
    CommentView {
        is_deleted: true,
        content: "[deleted]"@,
        content_html: "<p>[deleted]</p>"@,
        deleted_by: Some(by),
        deleted_at: Some(at),
        updated_at: at,
        ..c
    }
}

/// How many entries a page has when `total` rows are on offer.
pub open spec fn page_len(total: int, offset: int, limit: int) -> int {
    if offset < 0 || limit < 0 || offset >= total {
        0
    } else if total - offset < limit {
        total - offset
    } else {
        limit
    }
}

/// A page of a list read from its end: entry `k` of the page is the
/// `offset + k`-th newest element.
pub open spec fn newest_page<T>(all: Seq<T>, offset: int, limit: int) -> Seq<T> {
    Seq::new(
        page_len(all.len() as int, offset, limit) as nat,
        |k: int| all[all.len() - 1 - offset - k],
    )
}

impl StoreView {
    /// The store with nothing in it.
    pub open spec fn empty() -> StoreView {
        StoreView { comments: Seq::empty(), users: Map::empty(), posts: Map::empty(), next_id: 1 }
    }

    /// The store keeps its own house in order: ids grow with every row and
    /// stay below the next id, and every row's author is a known user.
    pub open spec fn wf(self) -> bool {
        &&& self.next_id >= 1
        &&& forall|i: int|
            0 <= i < self.comments.len() ==> 1 <= (#[trigger] self.comments[i]).id < self.next_id
        &&& forall|i: int, j: int|
            0 <= i < j < self.comments.len() ==> (#[trigger] self.comments[i]).id < (
            #[trigger] self.comments[j]).id
        &&& forall|i: int|
            0 <= i < self.comments.len() ==> self.users.contains_key(
                (#[trigger] self.comments[i]).user_id.value,
            )
    }

    /// The nesting rule: a comment without a parent is at level 0, a reply
    /// is one level below its parent, which was written before it, and no
    /// level exceeds the maximum.
    pub open spec fn levels_consistent(self) -> bool {
        forall|i: int|
            0 <= i < self.comments.len() ==> {
                let c = #[trigger] self.comments[i];
                &&& 0 <= c.nesting_level <= crate::comment::model::MAX_NESTING_DEPTH
                &&& c.parent_comment_id is None ==> c.nesting_level == 0
                &&& c.parent_comment_id is Some ==> exists|j: int|
                    0 <= j < i && (#[trigger] self.comments[j]).id == c.parent_comment_id->0
                        && c.nesting_level == self.comments[j].nesting_level + 1
            }
    }

    /// Whether a comment with this id was ever written.
    pub open spec fn has_comment(self, id: i64) -> bool {
        exists|i: int| 0 <= i < self.comments.len() && (#[trigger] self.comments[i]).id == id
    }

    /// Where the comment with this id stands.
    pub open spec fn index_of(self, id: i64) -> int {
        choose|i: int| 0 <= i < self.comments.len() && (#[trigger] self.comments[i]).id == id
    }

    /// The comment with this id, deleted or not.
    pub open spec fn lookup(self, id: i64) -> Option<CommentView> {
        if self.has_comment(id) {
            Some(self.comments[self.index_of(id)])
        } else {
            None
        }
    }

    /// The comment with this id, unless it is deleted.
    pub open spec fn lookup_live(self, id: i64) -> Option<CommentView> {
        match self.lookup(id) {
            Some(c) => if c.is_deleted {
                None
            } else {
                Some(c)
            },
            None => None,
        }
    }

    /// Whether the post exists and is not deleted.
    pub open spec fn post_open(self, post_id: i64) -> bool {
        self.posts.contains_key(post_id) && !self.posts[post_id]
    }

    /// The author record of a user, if the user is known.
    pub open spec fn author(self, user_id: UserId) -> Option<CommentAuthorView> {
        if self.users.contains_key(user_id.value) {
            Some(CommentAuthorView { id: user_id, name: self.users[user_id.value] })
        } else {
            None
        }
    }

    /// A comment with its author resolved.
    pub open spec fn row(self, c: CommentView) -> CommentRowView {
        CommentRowView {
            comment: c,
            author: CommentAuthorView { id: c.user_id, name: self.users[c.user_id.value] },
        }
    }

    /// A list of comments with their authors resolved.
    pub open spec fn rows(self, comments: Seq<CommentView>) -> Seq<CommentRowView> {
        comments.map_values(|c: CommentView| self.row(c))
    }

    /// The live comments that a selection takes, oldest first: by
    /// timestamp, and by id where timestamps are equal.
    pub open spec fn read(self, which: Selection) -> Seq<CommentView> {
        oldest_first(selected(self.comments, which))
    }

    /// The live replies to one comment, oldest first.
    pub open spec fn replies_to(self, parent: i64) -> Seq<CommentRowView> {
        self.rows(self.read(Selection::LiveRepliesTo(parent)))
    }

    /// The live replies to any of several comments, oldest first.
    pub open spec fn replies_to_any(self, parents: Seq<i64>) -> Seq<CommentRowView> {
        self.rows(self.read(Selection::LiveRepliesToAny(parents)))
    }

    /// The page of live roots of a post, newest first: by timestamp, and by
    /// id where timestamps are equal. A negative limit or offset is
    /// refused.
    pub open spec fn root_page(self, post_id: i64, limit: i64, offset: i64) -> Option<
        Seq<CommentRowView>,
    > {
        if limit < 0 || offset < 0 {
            None
        } else {
            Some(
                self.rows(
                    newest_page(
                        self.read(Selection::LiveRootsOf(post_id)),
                        offset as int,
                        limit as int,
                    ),
                ),
            )
        }
    }

    /// How many live comments a post has, replies included.
    pub open spec fn live_count(self, post_id: i64) -> int {
        selected(self.comments, Selection::LiveOnPost(post_id)).len() as int
    }

    /// Whether a new comment can be written: there is an id left, and its
    /// author, its post and its parent exist.
    pub open spec fn accepts(self, new: NewCommentView) -> bool {
        &&& self.next_id < i64::MAX
        &&& self.users.contains_key(new.user_id.value)
        &&& self.posts.contains_key(new.post_id)
        &&& new.parent_comment_id is Some ==> self.has_comment(new.parent_comment_id->0)
    }

    /// The row that writing a new comment produces.
    pub open spec fn fresh_row(self, new: NewCommentView) -> CommentView {
        CommentView {
            id: self.next_id,
            post_id: new.post_id,
            user_id: new.user_id,
            parent_comment_id: new.parent_comment_id,
            content: new.content,
            content_html: new.content_html,
            is_deleted: false,
            deleted_by: None,
            deleted_at: None,
            markdown_enabled: new.markdown_enabled,
            nesting_level: new.nesting_level,
            created_at: new.created_at,
            updated_at: new.created_at,
        }
    }

    /// The store after a new comment was written.
    pub open spec fn with_comment(self, new: NewCommentView) -> StoreView {
        StoreView {
            comments: self.comments.push(self.fresh_row(new)),
            next_id: (self.next_id + 1) as i64,
            ..self
        }
    }

    /// The store after the comment with this id was deleted; unchanged when
    /// there is no such comment.
    pub open spec fn with_deleted(self, id: i64, by: UserId, at: i64) -> StoreView {
        if self.has_comment(id) {
            StoreView {
                comments: self.comments.update(
                    self.index_of(id),
                    deleted_row(self.comments[self.index_of(id)], by, at),
                ),
                ..self
            }
        } else {
            self
        }
    }

    /// What is read is what the selection takes of the store's rows, and
    /// nothing else; it comes in time order.
    pub proof fn lemma_read_members(self, which: Selection)
        ensures
            in_time_order(self.read(which)),
            self.read(which).len() == selected(self.comments, which).len(),
            forall|x: CommentView| #[trigger]
                self.read(which).contains(x) <==> self.comments.contains(x) && which.takes(x),
    {
        let chosen = selected(self.comments, which);
        lemma_oldest_first(chosen);
        lemma_selected_members(self.comments, which);
        assert forall|x: CommentView| #[trigger]
            self.read(which).contains(x) <==> self.comments.contains(x) && which.takes(x) by {
            if chosen.contains(x) {
                let k = choose|k: int| 0 <= k < chosen.len() && chosen[k] == x;
                assert(which.takes(chosen[k]) && self.comments.contains(chosen[k]));
            }
            if self.comments.contains(x) && which.takes(x) {
                let i = choose|i: int| 0 <= i < self.comments.len() && self.comments[i] == x;
                assert(chosen.contains(self.comments[i]));
            }
        }
    }

    /// In an orderly store an id names at most one row.
    pub proof fn lemma_unique(self, i: int, j: int)
        requires
            self.wf(),
            0 <= i < self.comments.len(),
            0 <= j < self.comments.len(),
            self.comments[i].id == self.comments[j].id,
        ensures
            i == j,
    {
        if i < j {
            assert(self.comments[i].id < self.comments[j].id);
        } else if j < i {
            assert(self.comments[j].id < self.comments[i].id);
        }
    }

    /// In an orderly store, a row found under an id is the one that
    /// [`StoreView::lookup`] gives.
    pub proof fn lemma_lookup_at(self, i: int)
        requires
            self.wf(),
            0 <= i < self.comments.len(),
        ensures
            self.has_comment(self.comments[i].id),
            self.index_of(self.comments[i].id) == i,
            self.lookup(self.comments[i].id) == Some(self.comments[i]),
    {
        let id = self.comments[i].id;
        assert(self.has_comment(id));
        self.lemma_unique(i, self.index_of(id));
    }

    /// Writing a comment that the store accepts leaves the store orderly.
    pub proof fn lemma_with_comment_wf(self, new: NewCommentView)
        requires
            self.wf(),
            self.accepts(new),
        ensures
            self.with_comment(new).wf(),
    {
        let s = self.with_comment(new);
        assert forall|i: int, j: int| 0 <= i < j < s.comments.len() implies (
        #[trigger] s.comments[i]).id < (#[trigger] s.comments[j]).id by {
            assert(s.comments[i] == self.comments[i]);
            if j < s.comments.len() - 1 {
                assert(s.comments[j] == self.comments[j]);
            }
        }
        assert forall|i: int| 0 <= i < s.comments.len() implies 1 <= (
        #[trigger] s.comments[i]).id < s.next_id && s.users.contains_key(
            s.comments[i].user_id.value,
        ) by {
            if i < s.comments.len() - 1 {
                assert(s.comments[i] == self.comments[i]);
            }
        }
    }

    /// Writing a comment at the level its parent gives it keeps the
    /// nesting rule.
    pub proof fn lemma_with_comment_levels(self, new: NewCommentView)
        requires
            self.wf(),
            self.levels_consistent(),
            self.accepts(new),
            new.parent_comment_id is None ==> new.nesting_level == 0,
            new.parent_comment_id is Some ==> self.lookup(new.parent_comment_id->0) is Some
                && self.lookup(new.parent_comment_id->0)->0.nesting_level
                < crate::comment::model::MAX_NESTING_DEPTH && new.nesting_level == self.lookup(
                new.parent_comment_id->0,
            )->0.nesting_level + 1,
        ensures
            self.with_comment(new).levels_consistent(),
    {
        let s = self.with_comment(new);
        assert forall|i: int| 0 <= i < s.comments.len() implies {
            let c = #[trigger] s.comments[i];
            &&& 0 <= c.nesting_level <= crate::comment::model::MAX_NESTING_DEPTH
            &&& c.parent_comment_id is None ==> c.nesting_level == 0
            &&& c.parent_comment_id is Some ==> exists|j: int|
                0 <= j < i && (#[trigger] s.comments[j]).id == c.parent_comment_id->0
                    && c.nesting_level == s.comments[j].nesting_level + 1
        } by {
            let c = s.comments[i];
            if i < self.comments.len() {
                assert(c == self.comments[i]);
                if c.parent_comment_id is Some {
                    let j = choose|j: int|
                        0 <= j < i && (#[trigger] self.comments[j]).id == c.parent_comment_id->0
                            && c.nesting_level == self.comments[j].nesting_level + 1;
                    assert(s.comments[j] == self.comments[j]);
                }
            } else {
                if new.parent_comment_id is Some {
                    let p = new.parent_comment_id->0;
                    let j = self.index_of(p);
                    assert(self.has_comment(p));
                    assert(s.comments[j] == self.comments[j]);
                    assert(0 <= self.comments[j].nesting_level);
                }
            }
        }
    }

    /// Deleting a comment leaves the store orderly and keeps the nesting
    /// rule: the row stays where it is, with its id, its parent and its
    /// level.
    pub proof fn lemma_with_deleted_wf(self, id: i64, by: UserId, at: i64)
        requires
            self.wf(),
        ensures
            self.with_deleted(id, by, at).wf(),
            self.levels_consistent() ==> self.with_deleted(id, by, at).levels_consistent(),
            self.with_deleted(id, by, at).comments.len() == self.comments.len(),
            forall|i: int|
                0 <= i < self.comments.len() ==> {
                    let a = #[trigger] self.with_deleted(id, by, at).comments[i];
                    let b = self.comments[i];
                    &&& a.id == b.id
                    &&& a.post_id == b.post_id
                    &&& a.user_id == b.user_id
                    &&& a.parent_comment_id == b.parent_comment_id
                    &&& a.nesting_level == b.nesting_level
                    &&& a.created_at == b.created_at
                    &&& b.id != id ==> a == b
                    &&& b.id == id ==> a.is_deleted
                },
    {
        let s = self.with_deleted(id, by, at);
        if self.has_comment(id) {
            let k = self.index_of(id);
            assert forall|i: int| 0 <= i < self.comments.len() implies {
                let a = #[trigger] s.comments[i];
                let b = self.comments[i];
                &&& a.id == b.id
                &&& a.post_id == b.post_id
                &&& a.user_id == b.user_id
                &&& a.parent_comment_id == b.parent_comment_id
                &&& a.nesting_level == b.nesting_level
                &&& a.created_at == b.created_at
                &&& b.id != id ==> a == b
                &&& b.id == id ==> a.is_deleted
            } by {
                if self.comments[i].id == id {
                    self.lemma_unique(i, k);
                }
            }
            assert forall|i: int, j: int| 0 <= i < j < s.comments.len() implies (
            #[trigger] s.comments[i]).id < (#[trigger] s.comments[j]).id by {
                assert(self.comments[i].id < self.comments[j].id);
            }
            assert forall|i: int| 0 <= i < s.comments.len() implies 1 <= (
            #[trigger] s.comments[i]).id < s.next_id && s.users.contains_key(
                s.comments[i].user_id.value,
            ) by {
                assert(s.comments[i].id == self.comments[i].id);
            }
            if self.levels_consistent() {
                assert forall|i: int| 0 <= i < s.comments.len() implies {
                    let c = #[trigger] s.comments[i];
                    &&& 0 <= c.nesting_level <= crate::comment::model::MAX_NESTING_DEPTH
                    &&& c.parent_comment_id is None ==> c.nesting_level == 0
                    &&& c.parent_comment_id is Some ==> exists|j: int|
                        0 <= j < i && (#[trigger] s.comments[j]).id == c.parent_comment_id->0
                            && c.nesting_level == s.comments[j].nesting_level + 1
                } by {
                    let c = self.comments[i];
                    assert(s.comments[i].id == c.id);
                    if c.parent_comment_id is Some {
                        let j = choose|j: int|
                            0 <= j < i && (#[trigger] self.comments[j]).id == c.parent_comment_id->0
                                && c.nesting_level == self.comments[j].nesting_level + 1;
                        assert(s.comments[j].id == self.comments[j].id);
                    }
                }
            }
        }
    }

    /// An orderly store has fewer rows than its next id.
    pub proof fn lemma_row_count(self)
        requires
            self.wf(),
        ensures
            self.comments.len() < self.next_id,
    {
        self.lemma_ids_grow(self.comments.len() as int);
    }

    proof fn lemma_ids_grow(self, n: int)
        requires
            self.wf(),
            0 <= n <= self.comments.len(),
        ensures
            n > 0 ==> self.comments[n - 1].id >= n,
        decreases n,
    {
        if n > 1 {
            self.lemma_ids_grow(n - 1);
            assert(self.comments[n - 2].id < self.comments[n - 1].id);
        }
    }
}

/// What a read of the in-memory store asks for.
#[derive(Clone, Copy)]
enum Wanted<'a> {
    RootsOf(i64),
    RepliesToAny(&'a Vec<i64>),
    OnPost(i64),
}

impl<'a> View for Wanted<'a> {
    type V = Selection;

    closed spec fn view(&self) -> Selection {
        match self {
            Wanted::RootsOf(post_id) => Selection::LiveRootsOf(*post_id),
            Wanted::RepliesToAny(parents) => Selection::LiveRepliesToAny(parents@),
            Wanted::OnPost(post_id) => Selection::LiveOnPost(*post_id),
        }
    }
}

/// The in-memory store.
pub struct CommentStore {
    comments: Vec<Comment>,
    users: HashMap<u128, String>,
    posts: HashMap<i64, bool>,
    next_id: i64,
}

impl View for CommentStore {
    type V = StoreView;

    closed spec fn view(&self) -> StoreView {
        StoreView {
            comments: comment_views(self.comments@),
            users: self.users@.map_values(|s: String| s@),
            posts: self.posts@,
            next_id: self.next_id,
        }
    }
}

impl CommentStore {
    /// A store with no users, no posts and no comments.
    pub fn new() -> (r: Self)
        ensures
            r@ == StoreView::empty(),
            r@.wf(),
    {
        let r = CommentStore {
            comments: Vec::new(),
            users: HashMap::new(),
            posts: HashMap::new(),
            next_id: 1,
        };
        assert(r@.comments =~= Seq::<CommentView>::empty());
        assert(r@.users =~= Map::<u128, Seq<char>>::empty());
        r
    }

    /// Registers a user, or renames a known one.
    pub fn add_user(&mut self, id: UserId, name: String)
        ensures
            final(self)@ == (StoreView {
                users: old(self)@.users.insert(id.value, name@),
                ..old(self)@
            }),
            old(self)@.wf() ==> final(self)@.wf(),
    {
        broadcast use vstd::std_specs::hash::group_hash_axioms;

        self.users.insert(id.value, name);
        assert(self@.users =~= old(self)@.users.insert(id.value, name@));
    }

    /// Registers a post, open for comments.
    pub fn add_post(&mut self, post_id: i64)
        ensures
            final(self)@ == (StoreView {
                posts: old(self)@.posts.insert(post_id, false),
                ..old(self)@
            }),
            old(self)@.wf() ==> final(self)@.wf(),
    {
        broadcast use vstd::std_specs::hash::group_hash_axioms;

        self.posts.insert(post_id, false);
    }

    /// Marks a post as deleted. Its comments stay.
    pub fn retire_post(&mut self, post_id: i64)
        ensures
            final(self)@ == (StoreView {
                posts: if old(self)@.posts.contains_key(post_id) {
                    old(self)@.posts.insert(post_id, true)
                } else {
                    old(self)@.posts
                },
                ..old(self)@
            }),
            old(self)@.wf() ==> final(self)@.wf(),
    {
        broadcast use vstd::std_specs::hash::group_hash_axioms;

        if self.posts.contains_key(&post_id) {
            self.posts.insert(post_id, true);
        }
    }

    /// Whether the post exists and is not deleted.
    pub fn post_exists(&self, post_id: i64) -> (r: bool)
        ensures
            r == self@.post_open(post_id),
    {
        broadcast use vstd::std_specs::hash::group_hash_axioms;

        match self.posts.get(&post_id) {
            Some(deleted) => !*deleted,
            None => false,
        }
    }

    /// The author record of a user, if the user is known.
    pub fn find_author(&self, user_id: UserId) -> (r: Option<CommentAuthor>)
        ensures
            r is Some == self@.author(user_id) is Some,
            r is Some ==> r->0@ == self@.author(user_id)->0,
    {
        broadcast use vstd::std_specs::hash::group_hash_axioms;

        match self.users.get(&user_id.value) {
            Some(name) => Some(CommentAuthor { id: user_id, name: name.clone() }),
            None => None,
        }
    }

    fn position(&self, id: i64) -> (r: Option<usize>)
        requires
            self@.wf(),
        ensures
            r is Some == self@.has_comment(id),
            r is Some ==> r->0 < self.comments.len() && r->0 == self@.index_of(id)
                && self.comments@[r->0 as int].id == id,
    {
        let mut i: usize = 0;
        while i < self.comments.len()
            invariant
                self@.wf(),
                i <= self.comments.len(),
                forall|j: int| 0 <= j < i ==> (#[trigger] self@.comments[j]).id != id,
            decreases self.comments.len() - i,
        {
            if self.comments[i].id == id {
                proof {
                    assert(self@.comments[i as int].id == id);
                    self@.lemma_lookup_at(i as int);
                }
                return Some(i);
            }
            i += 1;
        }
        None
    }

    /// The comment with this id, deleted or not.
    pub fn find_comment(&self, id: i64) -> (r: Option<Comment>)
        requires
            self@.wf(),
        ensures
            r is Some == self@.lookup(id) is Some,
            r is Some ==> r->0@ == self@.lookup(id)->0,
    {
        match self.position(id) {
            Some(i) => Some(self.comments[i].clone()),
            None => None,
        }
    }

    /// The comment with this id, unless it is deleted.
    pub fn find_live_comment(&self, id: i64) -> (r: Option<Comment>)
        requires
            self@.wf(),
        ensures
            r is Some == self@.lookup_live(id) is Some,
            r is Some ==> r->0@ == self@.lookup_live(id)->0,
    {
        match self.position(id) {
            Some(i) => {
                if self.comments[i].is_deleted {
                    None
                } else {
                    Some(self.comments[i].clone())
                }
            },
            None => None,
        }
    }

    /// Writes a new comment and hands back the row, or refuses when the
    /// ids have run out or the author, the post or the parent is unknown.
    pub fn insert_comment(&mut self, new: NewComment) -> (r: Option<Comment>)
        requires
            old(self)@.wf(),
        ensures
            final(self)@.wf(),
            r is Some == old(self)@.accepts(new@),
            r is Some ==> r->0@ == old(self)@.fresh_row(new@) && final(self)@ == old(
                self,
            )@.with_comment(new@),
            r is None ==> final(self)@ == old(self)@,
    {
        broadcast use vstd::std_specs::hash::group_hash_axioms;

        if self.next_id == i64::MAX {
            return None;
        }
        if !self.users.contains_key(&new.user_id.value) {
            return None;
        }
        if !self.posts.contains_key(&new.post_id) {
            return None;
        }
        match new.parent_comment_id {
            Some(parent) => {
                if self.position(parent).is_none() {
                    return None;
                }
            },
            None => {},
        }
        let row = Comment {
            id: self.next_id,
            post_id: new.post_id,
            user_id: new.user_id,
            parent_comment_id: new.parent_comment_id,
            content: new.content,
            content_html: new.content_html,
            is_deleted: false,
            deleted_by: None,
            deleted_at: None,
            markdown_enabled: new.markdown_enabled,
            nesting_level: new.nesting_level,
            created_at: new.created_at,
            updated_at: new.created_at,
        };
        let copy = row.clone();
        self.comments.push(row);
        self.next_id = self.next_id + 1;
        proof {
            assert(self@.comments =~= old(self)@.comments.push(old(self)@.fresh_row(new@)));
            assert(self@.users =~= old(self)@.users);
            let s = self@;
            assert forall|i: int, j: int| 0 <= i < j < s.comments.len() implies (
            #[trigger] s.comments[i]).id < (#[trigger] s.comments[j]).id by {
                if j == s.comments.len() - 1 {
                    assert(s.comments[i] == old(self)@.comments[i]);
                } else {
                    assert(s.comments[i] == old(self)@.comments[i]);
                    assert(s.comments[j] == old(self)@.comments[j]);
                }
            }
            assert forall|i: int| 0 <= i < s.comments.len() implies 1 <= (
            #[trigger] s.comments[i]).id < s.next_id && s.users.contains_key(
                s.comments[i].user_id.value,
            ) by {
                if i < s.comments.len() - 1 {
                    assert(s.comments[i] == old(self)@.comments[i]);
                }
            }
        }
        Some(copy)
    }

    fn make_row(&self, i: usize) -> (r: CommentRow)
        requires
            self@.wf(),
            i < self.comments.len(),
        ensures
            r@ == self@.row(self@.comments[i as int]),
    {
        broadcast use vstd::std_specs::hash::group_hash_axioms;

        let c = self.comments[i].clone();
        assert(self@.users.contains_key(self@.comments[i as int].user_id.value));
        let name = match self.users.get(&c.user_id.value) {
            Some(n) => n.clone(),
            None => String::new(),
        };
        let author = CommentAuthor { id: c.user_id, name };
        CommentRow { comment: c, author }
    }

    /// The rows that stand at the given places.
    closed spec fn rows_at(&self, places: Seq<usize>) -> Seq<CommentView> {
        Seq::new(places.len(), |k: int| self@.comments[places[k] as int])
    }

    /// Whether the row at place `a` is read no later than the row at place
    /// `b`.
    fn reads_no_later(&self, a: usize, b: usize) -> (r: bool)
        requires
            a < self.comments.len(),
            b < self.comments.len(),
        ensures
            r == no_later(self@.comments[a as int], self@.comments[b as int]),
    {
        let x = &self.comments[a];
        let y = &self.comments[b];
        x.created_at < y.created_at || (x.created_at == y.created_at && x.id <= y.id)
    }

    /// The given places in reading order, oldest first.
    fn sort_places(&self, places: Vec<usize>) -> (r: Vec<usize>)
        requires
            forall|k: int| 0 <= k < places@.len() ==> (#[trigger] places@[k]) < self.comments.len(),
        ensures
            r@.len() == places@.len(),
            forall|k: int| 0 <= k < r@.len() ==> (#[trigger] r@[k]) < self.comments.len(),
            self.rows_at(r@) == oldest_first(self.rows_at(places@)),
    {
        let mut out: Vec<usize> = Vec::new();
        let mut i: usize = 0;
        assert(self.rows_at(places@.take(0)) =~= Seq::<CommentView>::empty());
        assert(self.rows_at(out@) =~= Seq::<CommentView>::empty());
        while i < places.len()
            invariant
                i <= places.len(),
                out@.len() == i,
                forall|k: int|
                    0 <= k < places@.len() ==> (#[trigger] places@[k]) < self.comments.len(),
                forall|k: int| 0 <= k < out@.len() ==> (#[trigger] out@[k]) < self.comments.len(),
                self.rows_at(out@) == oldest_first(self.rows_at(places@.take(i as int))),
            decreases places.len() - i,
        {
            let place = places[i];
            let ghost c = self@.comments[place as int];
            let ghost before = self.rows_at(out@);
            let mut at: usize = out.len();
            while at > 0 && !self.reads_no_later(out[at - 1], place)
                invariant
                    at <= out@.len(),
                    place < self.comments.len(),
                    c == self@.comments[place as int],
                    before == self.rows_at(out@),
                    forall|k: int|
                        0 <= k < out@.len() ==> (#[trigger] out@[k]) < self.comments.len(),
                    forall|k: int| at <= k < out@.len() ==> !no_later(#[trigger] before[k], c),
                decreases at,
            {
                at -= 1;
            }
            proof {
                lemma_placed_at(before, c, at as int);
                let upto = self.rows_at(places@.take(i as int));
                let next = self.rows_at(places@.take(i as int + 1));
                assert(next.drop_last() =~= upto);
                assert(next.last() == c);
            }
            out.insert(at, place);
            assert(self.rows_at(out@) =~= before.insert(at as int, c));
            i += 1;
        }
        assert(places@.take(i as int) =~= places@);
        out
    }

    /// The places of the comments that a selection takes, oldest first.
    fn select(&self, wanted: Wanted) -> (r: Vec<usize>)
        requires
            self@.wf(),
        ensures
            r@.len() == self@.read(wanted@).len(),
            forall|k: int|
                0 <= k < r@.len() ==> (#[trigger] r@[k]) < self.comments.len()
                    && self@.comments[r@[k] as int] == self@.read(wanted@)[k],
    {
        let found = self.find(wanted);
        assert(self.rows_at(found@) =~= selected(self@.comments, wanted@));
        let sorted = self.sort_places(found);
        proof {
            lemma_oldest_first(selected(self@.comments, wanted@));
            assert forall|k: int| 0 <= k < sorted@.len() implies self@.comments[sorted@[k] as int]
                == self@.read(wanted@)[k] by {
                assert(self.rows_at(sorted@)[k] == self@.comments[sorted@[k] as int]);
            }
        }
        sorted
    }

    /// The number of comments that a selection takes.
    fn count(&self, wanted: Wanted) -> (r: usize)
        requires
            self@.wf(),
        ensures
            r == selected(self@.comments, wanted@).len(),
    {
        self.find(wanted).len()
    }

    /// The places of the comments that a selection takes, as they stand.
    fn find(&self, wanted: Wanted) -> (r: Vec<usize>)
        requires
            self@.wf(),
        ensures
            r@.len() == selected(self@.comments, wanted@).len(),
            forall|k: int|
                0 <= k < r@.len() ==> (#[trigger] r@[k]) < self.comments.len()
                    && self@.comments[r@[k] as int] == selected(self@.comments, wanted@)[k],
    {
        let mut out: Vec<usize> = Vec::new();
        let mut i: usize = 0;
        while i < self.comments.len()
            invariant
                i <= self.comments.len(),
                self@.wf(),
                out@.len() == selected(self@.comments.take(i as int), wanted@).len(),
                forall|k: int|
                    0 <= k < out@.len() ==> (#[trigger] out@[k]) < self.comments.len()
                        && self@.comments[out@[k] as int] == selected(
                        self@.comments.take(i as int),
                        wanted@,
                    )[k],
            decreases self.comments.len() - i,
        {
            let c = &self.comments[i];
            let taken = if c.is_deleted {
                false
            } else {
                match wanted {
                    Wanted::RootsOf(post_id) => c.post_id == post_id
                        && c.parent_comment_id.is_none(),
                    Wanted::RepliesToAny(parents) => match c.parent_comment_id {
                        Some(parent) => contains_id(parents, parent),
                        None => false,
                    },
                    Wanted::OnPost(post_id) => c.post_id == post_id,
                }
            };
            proof {
                let before = self@.comments.take(i as int);
                assert(self@.comments.take(i as int + 1) =~= before.push(self@.comments[i as int]));
                lemma_selected_push(before, self@.comments[i as int], wanted@);
                assert(taken == wanted@.takes(self@.comments[i as int]));
            }
            if taken {
                out.push(i);
            }
            i += 1;
        }
        assert(self@.comments.take(i as int) =~= self@.comments);
        out
    }

    /// The page of live roots of a post, newest first by timestamp and,
    /// where timestamps are equal, by id: at most `limit` rows after
    /// skipping `offset`. A negative limit or offset is refused.
    pub fn root_comments(&self, post_id: i64, limit: i64, offset: i64) -> (r: Option<
        Vec<CommentRow>,
    >)
        requires
            self@.wf(),
        ensures
            r is Some == self@.root_page(post_id, limit, offset) is Some,
            r is Some ==> row_views(r->0@) == self@.root_page(post_id, limit, offset)->0,
    {
        if limit < 0 || offset < 0 {
            return None;
        }
        let ghost which = Selection::LiveRootsOf(post_id);
        let places = self.select(Wanted::RootsOf(post_id));
        let total = places.len();
        let ghost all = self@.read(which);
        let ghost want = newest_page(all, offset as int, limit as int);
        let mut out: Vec<CommentRow> = Vec::new();
        if (offset as u64) < (total as u64) {
            let start: usize = total - 1 - (offset as usize);
            let mut k: usize = 0;
            while k <= start && (k as u64) < (limit as u64)
                invariant
                    self@.wf(),
                    total == places@.len(),
                    total == all.len(),
                    0 <= offset < total,
                    0 <= limit,
                    start == total - 1 - offset,
                    k <= start + 1,
                    k <= limit,
                    out@.len() == k,
                    forall|j: int|
                        0 <= j < places@.len() ==> (#[trigger] places@[j]) < self.comments.len()
                            && self@.comments[places@[j] as int] == all[j],
                    forall|j: int|
                        0 <= j < k ==> (#[trigger] out@[j])@ == self@.row(all[total - 1 - offset - j]),
                decreases start + 1 - k,
            {
                let row = self.make_row(places[start - k]);
                out.push(row);
                k += 1;
            }
            assert(k == page_len(total as int, offset as int, limit as int));
        }
        assert(row_views(out@) =~= self@.rows(want));
        Some(out)
    }

    /// The live replies to any of the given comments, oldest first by
    /// timestamp and, where timestamps are equal, by id.
    pub fn replies(&self, parents: &Vec<i64>) -> (r: Vec<CommentRow>)
        requires
            self@.wf(),
        ensures
            row_views(r@) == self@.replies_to_any(parents@),
    {
        let ghost which = Selection::LiveRepliesToAny(parents@);
        let places = self.select(Wanted::RepliesToAny(parents));
        let ghost all = self@.read(which);
        let mut out: Vec<CommentRow> = Vec::new();
        let mut k: usize = 0;
        while k < places.len()
            invariant
                self@.wf(),
                k <= places@.len(),
                places@.len() == all.len(),
                out@.len() == k,
                forall|j: int|
                    0 <= j < places@.len() ==> (#[trigger] places@[j]) < self.comments.len()
                        && self@.comments[places@[j] as int] == all[j],
                forall|j: int| 0 <= j < k ==> (#[trigger] out@[j])@ == self@.row(all[j]),
            decreases places@.len() - k,
        {
            let row = self.make_row(places[k]);
            out.push(row);
            k += 1;
        }
        assert(row_views(out@) =~= self@.rows(all));
        out
    }

    /// Deletes a comment softly: the row stays, its content gives way to a
    /// marker. Without a comment of this id nothing happens.
    pub fn soft_delete(&mut self, id: i64, by: UserId, at: i64)
        requires
            old(self)@.wf(),
        ensures
            final(self)@.wf(),
            final(self)@ == old(self)@.with_deleted(id, by, at),
    {
        match self.position(id) {
            Some(i) => {
                let old_row = self.comments[i].clone();
                let row = Comment {
                    is_deleted: true,
                    content: String::from_str("[deleted]"),
                    content_html: String::from_str("<p>[deleted]</p>"),
                    deleted_by: Some(by),
                    deleted_at: Some(at),
                    updated_at: at,
                    ..old_row
                };
                self.comments.set(i, row);
                proof {
                    let before = old(self)@;
                    assert(self@.comments =~= before.comments.update(
                        i as int,
                        deleted_row(before.comments[i as int], by, at),
                    ));
                    assert(self@.users =~= before.users);
                    let s = self@;
                    assert forall|a: int| 0 <= a < s.comments.len() implies (
                    #[trigger] s.comments[a]).id == before.comments[a].id && s.comments[a].user_id
                        == before.comments[a].user_id by {}
                    assert forall|a: int, b: int| 0 <= a < b < s.comments.len() implies (
                    #[trigger] s.comments[a]).id < (#[trigger] s.comments[b]).id by {
                        assert(before.comments[a].id < before.comments[b].id);
                    }
                }
            },
            None => {},
        }
    }

    /// How many live comments a post has, replies included.
    pub fn count_comments(&self, post_id: i64) -> (r: i64)
        requires
            self@.wf(),
        ensures
            r == self@.live_count(post_id),
    {
        let ghost which = Selection::LiveOnPost(post_id);
        let found = self.count(Wanted::OnPost(post_id));
        proof {
            lemma_selected_members(self@.comments, which);
            self@.lemma_row_count();
        }
        found as i64
    }

    /// How many rows the store holds, deleted ones included.
    pub fn len(&self) -> (r: usize)
        ensures
            r == self@.comments.len(),
    {
        self.comments.len()
    }
}

fn contains_id(ids: &Vec<i64>, id: i64) -> (r: bool)
    ensures
        r == ids@.contains(id),
{
    let mut i: usize = 0;
    while i < ids.len()
        invariant
            i <= ids.len(),
            forall|j: int| 0 <= j < i ==> ids@[j] != id,
        decreases ids.len() - i,
    {
        if ids[i] == id {
            return true;
        }
        i += 1;
    }
    false
}

} // verus!
