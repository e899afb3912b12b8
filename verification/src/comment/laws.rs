//! What holds of the comment operations taken together.

use crate::cache::facade::COMMENT_RATE_LIMIT_SECONDS;
use crate::comment::model::{
    shows_reply,
    stands_within,
    CommentView,
    forest_height,
    forest_mentions,
    CommentErrorView,
    CommentResponseView,
    CreateCommentRequestView,
    COMMENTS_PER_PAGE,
    MAX_NESTING_DEPTH,
};
use crate::comment::rules::{content_verdict, drafted, level_for, notifies, offset_of, shown};
use crate::comment::service::{bad_range, BackendView};
use crate::comment::tree::{
    expandable,
    node,
    forest,
    lemma_threads_height,
    lemma_threads_index,
    lemma_threads_mention_live,
    threads,
    REPLY_LEVELS,
};
use crate::ident::UserId;
use crate::notification::model::reply_notice;
use crate::store::{
    in_time_order,
    lemma_oldest_first_push,
    lemma_selected_len_update,
    lemma_selected_members,
    lemma_selected_push,
    no_later,
    newest_page,
    selected,
    CommentRowView,
    Selection,
    StoreView,
};
use vstd::prelude::*;

verus! {

/// The nesting rule. In a service that is in order, a comment without a
/// parent is at level 0, and a reply is exactly one level below its
/// parent, which the store holds.
pub proof fn law_nesting_levels(w: BackendView, i: int)
    requires
        w.wf(),
        0 <= i < w.store.comments.len(),
    ensures
        w.store.comments[i].parent_comment_id is None ==> w.store.comments[i].nesting_level == 0,
        w.store.comments[i].parent_comment_id is Some ==> w.store.lookup(
            w.store.comments[i].parent_comment_id->0,
        ) is Some && w.store.comments[i].nesting_level == w.store.lookup(
            w.store.comments[i].parent_comment_id->0,
        )->0.nesting_level + 1,
        0 <= w.store.comments[i].nesting_level <= MAX_NESTING_DEPTH,
{
    let c = w.store.comments[i];
    if c.parent_comment_id is Some {
        let j = choose|j: int|
            0 <= j < i && (#[trigger] w.store.comments[j]).id == c.parent_comment_id->0
                && c.nesting_level == w.store.comments[j].nesting_level + 1;
        w.store.lemma_lookup_at(j);
    }
}

/// No reply goes deeper than the deepest level: a request to reply to a
/// comment that already sits there never succeeds and writes nothing, and
/// when content, rate limit and post raise no objection it is refused for
/// exactly that reason.
pub proof fn law_no_reply_beneath_the_deepest(
    w: BackendView,
    post_id: i64,
    actor: UserId,
    request: CreateCommentRequestView,
    now: i64,
)
    requires
        request.parent_comment_id is Some,
        w.store.lookup(request.parent_comment_id->0) is Some,
        w.store.lookup(request.parent_comment_id->0)->0.nesting_level + 1 > MAX_NESTING_DEPTH,
    ensures
        w.create_outcome(post_id, actor, request, now).1 is Err,
        w.create_outcome(post_id, actor, request, now).0.store == w.store,
        content_verdict(request.content) is None && !w.limited(actor, now) && w.store.post_open(
            post_id,
        ) ==> w.create_outcome(post_id, actor, request, now).1 == Err::<
            CommentResponseView,
            CommentErrorView,
        >(CommentErrorView::MaxNestingDepthReached),
{
}

/// No page shows a thread deeper than three levels of replies, whether it
/// is read from the store or served from the cache.
pub proof fn law_depth_bounded(
    w: BackendView,
    post_id: i64,
    page: Option<i64>,
    with_cache: bool,
    now: i64,
)
    requires
        w.wf(),
        w.list_outcome(post_id, page, with_cache, now).1 is Ok,
    ensures
        forest_height(w.list_outcome(post_id, page, with_cache, now).1->Ok_0) <= REPLY_LEVELS,
{
    let offset = offset_of(page)->0;
    if w.serves_cached(post_id, with_cache, now) {
        assert(w.cache->0.pages.contains_key(post_id));
    } else {
        lemma_threads_height(
            w.store,
            w.store.root_page(post_id, COMMENTS_PER_PAGE, offset)->0,
            REPLY_LEVELS as nat,
        );
    }
}

/// What the store alone would answer to a read of a page.
pub open spec fn fresh_page(w: BackendView, post_id: i64, page: Option<i64>) -> Result<
    Seq<CommentResponseView>,
    CommentErrorView,
> {
    match forest(w.store, post_id, COMMENTS_PER_PAGE, offset_of(page)->0) {
        Some(threads) => Ok(threads),
        None => Err(CommentErrorView::DatabaseError(bad_range())),
    }
}

/// Whether the first of two reads is served a cached page that differs
/// from what the store holds and that has expired by the second read.
pub open spec fn stale_page_runs_out(
    w: BackendView,
    post_id: i64,
    page: Option<i64>,
    with_cache: bool,
    first: i64,
    second: i64,
) -> bool {
    &&& offset_of(page) is Some
    &&& w.serves_cached(post_id, with_cache, first)
    &&& !w.serves_cached(post_id, with_cache, second)
    &&& Ok::<Seq<CommentResponseView>, CommentErrorView>(w.cache->0.page(post_id, first)->0)
        != fresh_page(w, post_id, page)
}

/// Reading is idempotent: the same read made twice in succession with no
/// write in between gives the same result, the second time from the cache
/// if the page is still there. The one exception is a first read that was
/// served a cached page at odds with the store which then expired.
pub proof fn law_read_twice(
    w: BackendView,
    post_id: i64,
    page: Option<i64>,
    with_cache: bool,
    first: i64,
    second: i64,
)
    requires
        first <= second,
        !stale_page_runs_out(w, post_id, page, with_cache, first, second),
    ensures
        w.list_outcome(post_id, page, with_cache, first).0.list_outcome(
            post_id,
            page,
            with_cache,
            second,
        ).1 == w.list_outcome(post_id, page, with_cache, first).1,
        w.list_outcome(post_id, page, with_cache, first).0.store == w.store,
{
    let once = w.list_outcome(post_id, page, with_cache, first);
    let after = once.0;
    let twice = after.list_outcome(post_id, page, with_cache, second);
    if offset_of(page) is Some {
        let offset = offset_of(page)->0;
        if w.serves_cached(post_id, with_cache, first) {
            assert(after == w);
            if w.serves_cached(post_id, with_cache, second) {
                assert(w.cache->0.page(post_id, second) == w.cache->0.page(post_id, first));
            } else {
                assert(twice.1 == fresh_page(w, post_id, page));
            }
        } else {
            assert(once.1 == fresh_page(w, post_id, page));
            assert(after.store == w.store);
            if after.serves_cached(post_id, with_cache, second) {
                if forest(w.store, post_id, COMMENTS_PER_PAGE, offset) is Some {
                    let threads = forest(w.store, post_id, COMMENTS_PER_PAGE, offset)->0;
                    assert(after.cache->0.pages[post_id].0 == threads);
                }
            } else {
                assert(twice.1 == fresh_page(after, post_id, page));
            }
        }
    }
}

/// A comment that was just written at the root of a post is read back on
/// the post's first page, shown exactly as the write showed it: same id,
/// same rendered content, same author, and no replies yet. It stands among
/// the roots of its post where its timestamp puts it; when it is among the
/// newest twenty, the first page shows it at that place, and when no live
/// root of the post carries a later timestamp, that place is the first.
pub proof fn law_written_root_is_read(
    w: BackendView,
    post_id: i64,
    actor: UserId,
    request: CreateCommentRequestView,
    written_at: i64,
    page: Option<i64>,
    with_cache: bool,
    read_at: i64,
)
    requires
        w.wf(),
        request.parent_comment_id is None,
        w.create_outcome(post_id, actor, request, written_at).1 is Ok,
        page is None || page == Some(1i64),
    ensures
        ({
            let created = w.create_outcome(post_id, actor, request, written_at);
            let read = created.0.list_outcome(post_id, page, with_cache, read_at).1;
            let roots = created.0.store.read(Selection::LiveRootsOf(post_id));
            let row = w.store.fresh_row(drafted(post_id, actor, request, 0, written_at));
            &&& read is Ok
            &&& roots.contains(row)
            &&& forall|m: int|
                0 <= m < COMMENTS_PER_PAGE && m < roots.len() && #[trigger] roots[roots.len() - 1
                    - m] == row ==> m < read->Ok_0.len() && read->Ok_0[m] == created.1->Ok_0
            &&& (forall|i: int|
                0 <= i < w.store.comments.len() && Selection::LiveRootsOf(post_id).takes(
                    #[trigger] w.store.comments[i],
                ) ==> w.store.comments[i].created_at <= written_at) ==> read->Ok_0.len() >= 1
                && read->Ok_0[0] == created.1->Ok_0
        }),
{
    let created = w.create_outcome(post_id, actor, request, written_at);
    let new = drafted(post_id, actor, request, 0, written_at);
    let row = w.store.fresh_row(new);
    let after = created.0;
    let store = after.store;
    assert(store == w.store.with_comment(new));
    assert(store.users == w.store.users);
    assert(!after.serves_cached(post_id, with_cache, read_at));
    assert(offset_of(page) == Some(0i64));
    let which = Selection::LiveRootsOf(post_id);
    let all = store.read(which);
    store.lemma_read_members(which);
    assert(store.comments[store.comments.len() - 1] == row);
    assert(store.comments.contains(row));
    let picked = newest_page(all, 0, COMMENTS_PER_PAGE as int);
    let roots = store.rows(picked);
    lemma_no_replies_yet(w.store, new);
    assert(threads(store, store.replies_to(row.id), (REPLY_LEVELS - 1) as nat)
        =~= Seq::<CommentResponseView>::empty());
    let read = after.list_outcome(post_id, page, with_cache, read_at).1;
    assert forall|m: int|
        0 <= m < COMMENTS_PER_PAGE && m < all.len() && #[trigger] all[all.len() - 1 - m]
            == row implies m < read->Ok_0.len() && read->Ok_0[m] == created.1->Ok_0 by {
        assert(picked[m] == row);
        assert(roots[m] == store.row(row));
        lemma_threads_index(store, roots, REPLY_LEVELS as nat, m);
    }
    if forall|i: int|
        0 <= i < w.store.comments.len() && which.takes(#[trigger] w.store.comments[i])
            ==> w.store.comments[i].created_at <= written_at {
        let before = selected(w.store.comments, which);
        lemma_selected_members(w.store.comments, which);
        lemma_selected_push(w.store.comments, row, which);
        assert forall|k: int| 0 <= k < before.len() implies no_later(#[trigger] before[k], row) by {
            assert(w.store.comments.contains(before[k]));
            let i = choose|i: int| 0 <= i < w.store.comments.len() && w.store.comments[i] == before[k];
            assert(which.takes(w.store.comments[i]));
            assert(w.store.comments[i].id < w.store.next_id);
        }
        lemma_oldest_first_push(before, row);
        assert(all[all.len() - 1 - 0] == row);
    }
}

/// A comment that was just written has no replies: every reply names a
/// comment that was written before it.
proof fn lemma_no_replies_yet(s: StoreView, new: crate::store::NewCommentView)
    requires
        s.wf(),
        s.levels_consistent(),
        s.accepts(new),
    ensures
        s.with_comment(new).replies_to(s.next_id).len() == 0,
{
    let after = s.with_comment(new);
    let which = Selection::LiveRepliesTo(s.next_id);
    lemma_selected_members(after.comments, which);
    after.lemma_read_members(which);
    let picked = selected(after.comments, which);
    if picked.len() > 0 {
        let c = picked[0];
        assert(after.comments.contains(c));
        let i = choose|i: int| 0 <= i < after.comments.len() && after.comments[i] == c;
        if i < s.comments.len() {
            assert(after.comments[i] == s.comments[i]);
            let j = choose|j: int|
                0 <= j < i && (#[trigger] s.comments[j]).id == c.parent_comment_id->0;
            assert(s.comments[j].id < s.next_id);
        } else {
            assert(s.has_comment(s.next_id));
            let k = s.index_of(s.next_id);
            assert(s.comments[k].id < s.next_id);
        }
    }
}

/// A reply that was just written stands in its parent's thread, and comes
/// last there when no live reply to that parent carries a later timestamp.
pub proof fn law_written_reply_is_in_thread(
    w: BackendView,
    post_id: i64,
    actor: UserId,
    request: CreateCommentRequestView,
    now: i64,
)
    requires
        w.wf(),
        request.parent_comment_id is Some,
        w.create_outcome(post_id, actor, request, now).1 is Ok,
    ensures
        ({
            let created = w.create_outcome(post_id, actor, request, now);
            let thread = created.0.store.replies_to(request.parent_comment_id->0);
            let replies = Selection::LiveRepliesTo(request.parent_comment_id->0);
            &&& exists|k: int|
                0 <= k < thread.len() && shown((#[trigger] thread[k]).comment, thread[k].author)
                    == created.1->Ok_0
            &&& (forall|i: int|
                0 <= i < w.store.comments.len() && replies.takes(#[trigger] w.store.comments[i])
                    ==> w.store.comments[i].created_at <= now) ==> shown(
                thread.last().comment,
                thread.last().author,
            ) == created.1->Ok_0
        }),
{
    let p = request.parent_comment_id->0;
    let parent = w.store.lookup(p);
    let new = drafted(post_id, actor, request, level_for(parent)->Ok_0, now);
    let row = w.store.fresh_row(new);
    let store = w.store.with_comment(new);
    let which = Selection::LiveRepliesTo(p);
    assert(w.create_outcome(post_id, actor, request, now).0.store == store);
    assert(store.users == w.store.users);
    store.lemma_read_members(which);
    assert(store.comments[store.comments.len() - 1] == row);
    assert(store.read(which).contains(row));
    let k = choose|k: int| 0 <= k < store.read(which).len() && store.read(which)[k] == row;
    assert(store.replies_to(p)[k] == store.row(row));
    if forall|i: int|
        0 <= i < w.store.comments.len() && which.takes(#[trigger] w.store.comments[i])
            ==> w.store.comments[i].created_at <= now {
        let before = selected(w.store.comments, which);
        lemma_selected_members(w.store.comments, which);
        lemma_selected_push(w.store.comments, row, which);
        assert forall|j: int| 0 <= j < before.len() implies no_later(#[trigger] before[j], row) by {
            assert(w.store.comments.contains(before[j]));
            let i = choose|i: int| 0 <= i < w.store.comments.len() && w.store.comments[i] == before[j];
            assert(which.takes(w.store.comments[i]));
            assert(w.store.comments[i].id < w.store.next_id);
        }
        lemma_oldest_first_push(before, row);
        assert(store.replies_to(p).last() == store.row(row));
    }
}

/// A reply that was just written is read back beneath its parent, shown
/// exactly as the write showed it, wherever the first page of the post
/// shows the parent within its top three levels, that is, with room for
/// replies beneath it.
pub proof fn law_written_reply_is_read(
    w: BackendView,
    post_id: i64,
    actor: UserId,
    request: CreateCommentRequestView,
    written_at: i64,
    page: Option<i64>,
    with_cache: bool,
    read_at: i64,
)
    requires
        w.wf(),
        request.parent_comment_id is Some,
        w.create_outcome(post_id, actor, request, written_at).1 is Ok,
        page is None || page == Some(1i64),
    ensures
        ({
            let created = w.create_outcome(post_id, actor, request, written_at);
            let read = created.0.list_outcome(post_id, page, with_cache, read_at).1;
            &&& read is Ok
            &&& stands_within(read->Ok_0, request.parent_comment_id->0, REPLY_LEVELS as nat)
                ==> shows_reply(read->Ok_0, request.parent_comment_id->0, created.1->Ok_0)
        }),
{
    let p = request.parent_comment_id->0;
    let parent = w.store.lookup(p);
    let new = drafted(post_id, actor, request, level_for(parent)->Ok_0, written_at);
    let row = w.store.fresh_row(new);
    let created = w.create_outcome(post_id, actor, request, written_at);
    let after = created.0;
    let store = after.store;
    assert(store == w.store.with_comment(new));
    assert(store.users == w.store.users);
    assert(!after.serves_cached(post_id, with_cache, read_at));
    assert(offset_of(page) == Some(0i64));
    w.store.lemma_with_comment_wf(new);
    lemma_no_replies_yet(w.store, new);
    let which = Selection::LiveRootsOf(post_id);
    let all = store.read(which);
    let picked = newest_page(all, 0, COMMENTS_PER_PAGE as int);
    let roots = store.rows(picked);
    store.lemma_read_members(which);
    assert forall|i: int| 0 <= i < roots.len() implies store.comments.contains(
        (#[trigger] roots[i]).comment,
    ) by {
        assert(roots[i].comment == picked[i]);
        assert(picked[i] == all[all.len() - 1 - i]);
        assert(all.contains(all[all.len() - 1 - i]));
    }
    assert(store.comments[store.comments.len() - 1] == row);
    assert forall|i: int| 0 <= i < store.comments.len() && (#[trigger] store.comments[i]).id
        == p implies store.comments[i].nesting_level < MAX_NESTING_DEPTH by {
        assert(w.store.has_comment(p));
        let k = w.store.index_of(p);
        assert(w.store.comments[k].id < w.store.next_id);
        if i < w.store.comments.len() {
            assert(store.comments[i] == w.store.comments[i]);
            w.store.lemma_unique(i, k);
        }
    }
    if stands_within(threads(store, roots, REPLY_LEVELS as nat), p, REPLY_LEVELS as nat) {
        lemma_reply_is_shown(store, roots, REPLY_LEVELS as nat, row);
    }
}

/// In the threads of a store, a live comment without replies is shown
/// among the replies of its parent wherever the parent stands with room
/// beneath it.
proof fn lemma_reply_is_shown(
    store: StoreView,
    rows: Seq<CommentRowView>,
    depth: nat,
    row: CommentView,
)
    requires
        store.wf(),
        forall|i: int| 0 <= i < rows.len() ==> store.comments.contains((#[trigger] rows[i]).comment),
        store.comments.contains(row),
        !row.is_deleted,
        row.parent_comment_id is Some,
        forall|i: int|
            0 <= i < store.comments.len() && (#[trigger] store.comments[i]).id
                == row.parent_comment_id->0 ==> store.comments[i].nesting_level
                < MAX_NESTING_DEPTH,
        store.replies_to(row.id).len() == 0,
        stands_within(threads(store, rows, depth), row.parent_comment_id->0, depth),
    ensures
        shows_reply(
            threads(store, rows, depth),
            row.parent_comment_id->0,
            shown(row, store.row(row).author),
        ),
    decreases depth, rows.len(),
{
    let p = row.parent_comment_id->0;
    let target = shown(row, store.row(row).author);
    let forest = threads(store, rows, depth);
    if rows.len() > 0 && depth > 0 {
        let front = rows.drop_last();
        let last = rows.last();
        let beneath = store.replies_to(last.comment.id);
        let kids = if expandable(last) {
            threads(store, beneath, (depth - 1) as nat)
        } else {
            Seq::empty()
        };
        assert(forest.drop_last() =~= threads(store, front, depth));
        assert(forest.last() == node(last, kids));
        assert forall|i: int| 0 <= i < front.len() implies store.comments.contains(
            (#[trigger] front[i]).comment,
        ) by {
            assert(front[i] == rows[i]);
        }
        let replies = Selection::LiveRepliesTo(last.comment.id);
        store.lemma_read_members(replies);
        assert forall|i: int| 0 <= i < beneath.len() implies store.comments.contains(
            (#[trigger] beneath[i]).comment,
        ) by {
            assert(beneath[i].comment == store.read(replies)[i]);
            assert(store.read(replies).contains(store.read(replies)[i]));
        }
        if forest.last().id == p {
            assert(store.comments.contains(rows[rows.len() - 1].comment));
            let i = choose|i: int| 0 <= i < store.comments.len() && store.comments[i] == last.comment;
            assert(store.comments[i].id == p);
            assert(expandable(last));
            assert(store.read(replies).contains(row));
            let j = choose|j: int| 0 <= j < store.read(replies).len() && store.read(replies)[j] == row;
            assert(beneath[j] == store.row(row));
            lemma_threads_index(store, beneath, (depth - 1) as nat, j);
            assert(threads(store, store.replies_to(row.id), (depth - 2) as nat)
                =~= Seq::<CommentResponseView>::empty());
            assert(kids[j] == target);
            assert(kids.contains(target));
        } else if forest.last().replies is Some && stands_within(
            forest.last().replies->0,
            p,
            (depth - 1) as nat,
        ) {
            assert(kids.len() > 0);
            lemma_reply_is_shown(store, beneath, (depth - 1) as nat, row);
        } else {
            lemma_reply_is_shown(store, front, depth, row);
        }
    }
}

/// The rate limit. Once an actor's write has passed the content check and
/// the limiter, every further write of theirs within the next 100 seconds
/// is refused as rate-limited and changes nothing; after the window the
/// limiter lets them through again. The window is not extended by the
/// attempts made within it. This needs a cache: without one nobody is
/// limited.
pub proof fn law_rate_limit(
    w: BackendView,
    actor: UserId,
    first_post: i64,
    first: CreateCommentRequestView,
    first_at: i64,
    post_id: i64,
    request: CreateCommentRequestView,
    at: i64,
)
    requires
        w.cache is Some,
        content_verdict(first.content) is None,
        !w.limited(actor, first_at),
        content_verdict(request.content) is None,
        first_at + COMMENT_RATE_LIMIT_SECONDS <= i64::MAX,
    ensures
        ({
            let after = w.create_outcome(first_post, actor, first, first_at).0;
            &&& at < first_at + COMMENT_RATE_LIMIT_SECONDS ==> after.create_outcome(
                post_id,
                actor,
                request,
                at,
            ) == (
                after,
                Err::<CommentResponseView, CommentErrorView>(CommentErrorView::RateLimitExceeded),
            )
            &&& at >= first_at + COMMENT_RATE_LIMIT_SECONDS ==> !after.limited(actor, at)
                && after.create_outcome(post_id, actor, request, at) == after.marked(
                actor,
                at,
            ).place_outcome(post_id, actor, request, at)
        }),
{
}

/// Without a cache the limiter is inert: no write is ever refused as
/// rate-limited.
pub proof fn law_no_cache_no_limit(
    w: BackendView,
    post_id: i64,
    actor: UserId,
    request: CreateCommentRequestView,
    now: i64,
)
    requires
        w.cache is None,
    ensures
        w.create_outcome(post_id, actor, request, now).1 != Err::<
            CommentResponseView,
            CommentErrorView,
        >(CommentErrorView::RateLimitExceeded),
{
}

/// Content that is not acceptable is refused before anything is touched:
/// no row is written and no rate-limit marker is set.
pub proof fn law_bad_content_touches_nothing(
    w: BackendView,
    post_id: i64,
    actor: UserId,
    request: CreateCommentRequestView,
    now: i64,
)
    requires
        content_verdict(request.content) is Some,
    ensures
        w.create_outcome(post_id, actor, request, now) == (
            w,
            Err::<CommentResponseView, CommentErrorView>(
                CommentErrorView::ValidationError(content_verdict(request.content)->0),
            ),
        ),
{
}

/// Soft delete. A deleted comment is gone from every page of its post and
/// from the post's count, which drops by one, while its row stays in the
/// store and every other row, its replies among them, is left exactly as
/// it was.
pub proof fn law_deleted_is_absent(
    w: BackendView,
    comment_id: i64,
    actor: UserId,
    is_privileged: bool,
    deleted_at: i64,
    page: Option<i64>,
    with_cache: bool,
    read_at: i64,
)
    requires
        w.wf(),
        w.delete_outcome(comment_id, actor, is_privileged, deleted_at).1 is Ok,
    ensures
        ({
            let post_id = w.store.lookup_live(comment_id)->0.post_id;
            let after = w.delete_outcome(comment_id, actor, is_privileged, deleted_at).0;
            let read = after.list_outcome(post_id, page, with_cache, read_at).1;
            &&& read is Ok ==> !forest_mentions(read->Ok_0, comment_id)
            &&& after.store.comments.len() == w.store.comments.len()
            &&& after.store.lookup(comment_id) is Some
            &&& after.store.lookup(comment_id)->0.is_deleted
            &&& after.store.live_count(post_id) == w.store.live_count(post_id) - 1
            &&& forall|i: int|
                0 <= i < w.store.comments.len() && w.store.comments[i].id != comment_id
                    ==> #[trigger] after.store.comments[i] == w.store.comments[i]
        }),
{
    let c = w.store.lookup_live(comment_id)->0;
    let post_id = c.post_id;
    let after = w.delete_outcome(comment_id, actor, is_privileged, deleted_at).0;
    let store = after.store;
    w.store.lemma_with_deleted_wf(comment_id, actor, deleted_at);
    let k = w.store.index_of(comment_id);
    assert(store.comments[k].id == comment_id && store.comments[k].is_deleted);
    store.lemma_lookup_at(k);
    lemma_selected_len_update(
        w.store.comments,
        k,
        crate::store::deleted_row(c, actor, deleted_at),
        Selection::LiveOnPost(post_id),
    );
    let read = after.list_outcome(post_id, page, with_cache, read_at).1;
    assert(!after.serves_cached(post_id, with_cache, read_at));
    if read is Ok && forest_mentions(read->Ok_0, comment_id) {
        let offset = offset_of(page)->0;
        let which = Selection::LiveRootsOf(post_id);
        let all = store.read(which);
        let picked = newest_page(all, offset as int, COMMENTS_PER_PAGE as int);
        let roots = store.rows(picked);
        store.lemma_read_members(which);
        assert forall|i: int| 0 <= i < roots.len() implies store.comments.contains(
            (#[trigger] roots[i]).comment,
        ) && !roots[i].comment.is_deleted by {
            assert(roots[i].comment == picked[i]);
            assert(picked[i] == all[all.len() - 1 - offset - i]);
            assert(all.contains(all[all.len() - 1 - offset - i]));
        }
        lemma_threads_mention_live(store, roots, REPLY_LEVELS as nat, comment_id);
        let i = choose|i: int|
            0 <= i < store.comments.len() && (#[trigger] store.comments[i]).id == comment_id
                && !store.comments[i].is_deleted;
        store.lemma_unique(i, k);
    }
}

/// Reading order. The roots of a page are the live roots of the post and
/// no others, each once, read from the newest: a later timestamp comes
/// first, and of two roots with the same timestamp the one with the greater
/// id. The replies to a comment are its live replies and no others, each
/// once, read from the oldest.
pub proof fn law_reads_are_in_time_order(
    store: StoreView,
    post_id: i64,
    limit: i64,
    offset: i64,
    parent: i64,
)
    ensures
        ({
            let roots = store.read(Selection::LiveRootsOf(post_id));
            let replies = store.read(Selection::LiveRepliesTo(parent));
            &&& in_time_order(roots)
            &&& in_time_order(replies)
            &&& roots.len() == selected(store.comments, Selection::LiveRootsOf(post_id)).len()
            &&& replies.len() == selected(store.comments, Selection::LiveRepliesTo(parent)).len()
            &&& forall|c: CommentView| #[trigger]
                roots.contains(c) <==> store.comments.contains(c) && c.post_id == post_id
                    && c.parent_comment_id is None && !c.is_deleted
            &&& forall|c: CommentView| #[trigger]
                replies.contains(c) <==> store.comments.contains(c) && c.parent_comment_id == Some(
                    parent,
                ) && !c.is_deleted
            &&& store.replies_to(parent).len() == replies.len()
            &&& forall|k: int|
                0 <= k < replies.len() ==> (#[trigger] store.replies_to(parent)[k]).comment
                    == replies[k]
            &&& store.root_page(post_id, limit, offset) is Some ==> {
                let page = store.root_page(post_id, limit, offset)->0;
                &&& page.len() == crate::store::page_len(
                    roots.len() as int,
                    offset as int,
                    limit as int,
                )
                &&& forall|k: int|
                    0 <= k < page.len() ==> (#[trigger] page[k]).comment == roots[roots.len() - 1
                        - offset - k]
                &&& forall|a: int, b: int|
                    0 <= a < b < page.len() ==> no_later(
                        (#[trigger] page[b]).comment,
                        (#[trigger] page[a]).comment,
                    )
            }
        }),
{
    let roots = store.read(Selection::LiveRootsOf(post_id));
    store.lemma_read_members(Selection::LiveRootsOf(post_id));
    store.lemma_read_members(Selection::LiveRepliesTo(parent));
    if store.root_page(post_id, limit, offset) is Some {
        let page = store.root_page(post_id, limit, offset)->0;
        assert forall|a: int, b: int| 0 <= a < b < page.len() implies no_later(
            (#[trigger] page[b]).comment,
            (#[trigger] page[a]).comment,
        ) by {
            assert(page[a].comment == roots[roots.len() - 1 - offset - a]);
            assert(page[b].comment == roots[roots.len() - 1 - offset - b]);
        }
    }
}

/// What a page holds. A read that is not served from the cache gives the
/// live roots of the post cut to the page, none skipped and none twice:
/// entry `k` of page `p` is the `(p - 1) * 20 + k`-th newest root, shown
/// with the threads of its live replies beneath it, which are read oldest
/// first and followed down to the deepest level.
pub proof fn law_page_holds_the_roots(
    w: BackendView,
    post_id: i64,
    page: Option<i64>,
    with_cache: bool,
    now: i64,
    k: int,
)
    requires
        w.wf(),
        offset_of(page) is Some,
        offset_of(page)->0 >= 0,
        !w.serves_cached(post_id, with_cache, now),
        0 <= k < crate::store::page_len(
            w.store.read(Selection::LiveRootsOf(post_id)).len() as int,
            offset_of(page)->0 as int,
            COMMENTS_PER_PAGE as int,
        ),
    ensures
        ({
            let read = w.list_outcome(post_id, page, with_cache, now).1;
            let roots = w.store.read(Selection::LiveRootsOf(post_id));
            let root = roots[roots.len() - 1 - offset_of(page)->0 - k];
            &&& read is Ok
            &&& read->Ok_0.len() == crate::store::page_len(
                roots.len() as int,
                offset_of(page)->0 as int,
                COMMENTS_PER_PAGE as int,
            )
            &&& read->Ok_0.len() <= COMMENTS_PER_PAGE
            &&& w.store.comments.contains(root)
            &&& root.post_id == post_id && root.parent_comment_id is None && !root.is_deleted
            &&& read->Ok_0[k] == node(
                w.store.row(root),
                threads(w.store, w.store.replies_to(root.id), (REPLY_LEVELS - 1) as nat),
            )
        }),
{
    let store = w.store;
    let offset = offset_of(page)->0;
    let which = Selection::LiveRootsOf(post_id);
    let roots = store.read(which);
    store.lemma_read_members(which);
    let rows = store.root_page(post_id, COMMENTS_PER_PAGE, offset)->0;
    let root = roots[roots.len() - 1 - offset - k];
    assert(rows[k] == store.row(root));
    assert(roots.contains(root));
    let i = choose|i: int| 0 <= i < store.comments.len() && store.comments[i] == root;
    law_nesting_levels(w, i);
    lemma_threads_index(store, rows, REPLY_LEVELS as nat, k);
}

/// Whether every cached count that is still there at `from` is the number
/// of live comments of its post.
pub open spec fn counts_hold(w: BackendView, from: i64) -> bool {
    w.cache is Some ==> forall|post_id: i64| #[trigger]
        w.cache->0.counts.contains_key(post_id) && w.cache->0.count(post_id, from) is Some
            ==> w.cache->0.counts[post_id].0 == w.store.live_count(post_id)
}

/// An entry that is there at a later time was there at an earlier one, so
/// counts that hold from some time on hold from every later time on.
pub proof fn law_counts_hold_later(w: BackendView, from: i64, later: i64)
    requires
        counts_hold(w, from),
        from <= later,
    ensures
        counts_hold(w, later),
{
    if w.cache is Some {
        assert forall|post_id: i64| #[trigger]
            w.cache->0.counts.contains_key(post_id) && w.cache->0.count(post_id, later)
                is Some implies w.cache->0.counts[post_id].0 == w.store.live_count(post_id) by {
            assert(w.cache->0.count(post_id, from) is Some);
        }
    }
}

/// The count is right. When the cached counts hold, counting the comments
/// of a post gives the number of its live comments, replies at every depth
/// included, whether the answer comes from the cache or from the store;
/// and the cached counts still hold afterwards.
pub proof fn law_count_is_right(w: BackendView, post_id: i64, now: i64)
    requires
        w.wf(),
        counts_hold(w, now),
    ensures
        w.count_outcome(post_id, now).1 == Ok::<i64, CommentErrorView>(
            w.store.live_count(post_id) as i64,
        ),
        w.store.live_count(post_id) <= i64::MAX,
        counts_hold(w.count_outcome(post_id, now).0, now),
        w.count_outcome(post_id, now).0.store == w.store,
{
    lemma_selected_members(w.store.comments, Selection::LiveOnPost(post_id));
    w.store.lemma_row_count();
    let after = w.count_outcome(post_id, now).0;
    if w.cache is Some {
        assert(w.cache->0.count(post_id, now) is Some ==> w.cache->0.counts.contains_key(post_id));
        assert forall|q: i64| #[trigger]
            after.cache->0.counts.contains_key(q) && after.cache->0.count(q, now)
                is Some implies after.cache->0.counts[q].0 == after.store.live_count(q) by {
            if q != post_id {
                assert(w.cache->0.counts.contains_key(q));
                assert(w.cache->0.count(q, now) is Some);
            } else if w.cache->0.count(post_id, now) is Some {
                assert(w.cache->0.counts.contains_key(q));
            }
        }
    }
}

/// Writes keep the cached counts right: after a comment is written or
/// deleted, every cached count that is still there is the number of live
/// comments of its post.
pub proof fn law_writes_keep_counts(
    w: BackendView,
    post_id: i64,
    actor: UserId,
    request: CreateCommentRequestView,
    comment_id: i64,
    is_privileged: bool,
    now: i64,
)
    requires
        w.wf(),
        counts_hold(w, now),
    ensures
        counts_hold(w.create_outcome(post_id, actor, request, now).0, now),
        counts_hold(w.delete_outcome(comment_id, actor, is_privileged, now).0, now),
{
    let created = w.create_outcome(post_id, actor, request, now).0;
    if w.cache is Some {
        let before = w.cache->0;
        assert forall|q: i64| #[trigger]
            created.cache->0.counts.contains_key(q) && created.cache->0.count(q, now)
                is Some implies created.cache->0.counts[q].0 == created.store.live_count(q) by {
            lemma_selected_members(w.store.comments, Selection::LiveOnPost(q));
            w.store.lemma_row_count();
            if created.store == w.store {
                assert(before.counts.contains_key(q));
                assert(before.count(q, now) is Some);
            } else {
                let parent = match request.parent_comment_id {
                    Some(p) => w.store.lookup(p),
                    None => None,
                };
                let new = drafted(post_id, actor, request, level_for(parent)->Ok_0, now);
                let row = w.store.fresh_row(new);
                lemma_selected_push(w.store.comments, row, Selection::LiveOnPost(q));
                assert(before.counts.contains_key(q));
                assert(before.count(q, now) is Some);
            }
        }
        let deleted = w.delete_outcome(comment_id, actor, is_privileged, now).0;
        assert forall|q: i64| #[trigger]
            deleted.cache->0.counts.contains_key(q) && deleted.cache->0.count(q, now)
                is Some implies deleted.cache->0.counts[q].0 == deleted.store.live_count(q) by {
            lemma_selected_members(w.store.comments, Selection::LiveOnPost(q));
            w.store.lemma_row_count();
            assert(before.counts.contains_key(q));
            assert(before.count(q, now) is Some);
            if deleted.store != w.store {
                let c = w.store.lookup_live(comment_id)->0;
                let k = w.store.index_of(comment_id);
                lemma_selected_len_update(
                    w.store.comments,
                    k,
                    crate::store::deleted_row(c, actor, now),
                    Selection::LiveOnPost(q),
                );
            }
        }
    }
}

/// A root with one reply. When the live roots of a post are one comment,
/// the live replies to it are one other, and nothing live replies to that
/// one, a read of the post's first page that is not served from the cache
/// gives exactly that root with exactly that reply beneath it: the root
/// without a parent, the reply naming the root as its parent and having no
/// replies of its own, each with its rendered content and its author.
pub proof fn law_root_with_one_reply(
    w: BackendView,
    post_id: i64,
    page: Option<i64>,
    with_cache: bool,
    now: i64,
    root: CommentView,
    reply: CommentView,
)
    requires
        page is None || page == Some(1i64),
        !w.serves_cached(post_id, with_cache, now),
        w.store.read(Selection::LiveRootsOf(post_id)) == seq![root],
        w.store.read(Selection::LiveRepliesTo(root.id)) == seq![reply],
        w.store.read(Selection::LiveRepliesTo(reply.id)).len() == 0,
        root.nesting_level == 0,
        reply.nesting_level == 1,
    ensures
        ({
            let read = w.list_outcome(post_id, page, with_cache, now).1;
            &&& read is Ok
            &&& read->Ok_0.len() == 1
            &&& read->Ok_0[0].id == root.id
            &&& read->Ok_0[0].content_html == root.content_html
            &&& read->Ok_0[0].author == w.store.row(root).author
            &&& read->Ok_0[0].created_at == root.created_at
            &&& read->Ok_0[0].parent_comment_id == root.parent_comment_id
            &&& read->Ok_0[0].replies is Some
            &&& read->Ok_0[0].replies->0.len() == 1
            &&& read->Ok_0[0].replies->0[0] == shown(reply, w.store.row(reply).author)
        }),
{
    let store = w.store;
    assert(offset_of(page) == Some(0i64));
    let roots = store.root_page(post_id, COMMENTS_PER_PAGE, 0)->0;
    assert(roots =~= seq![store.row(root)]);
    lemma_threads_index(store, roots, REPLY_LEVELS as nat, 0);
    let beneath = store.replies_to(root.id);
    assert(beneath =~= seq![store.row(reply)]);
    lemma_threads_index(store, beneath, (REPLY_LEVELS - 1) as nat, 0);
    assert(store.replies_to(reply.id) =~= Seq::<CommentRowView>::empty());
    assert(threads(store, store.replies_to(reply.id), (REPLY_LEVELS - 2) as nat)
        =~= Seq::<CommentResponseView>::empty());
    lemma_threads_height(store, roots, REPLY_LEVELS as nat);
    lemma_threads_height(store, beneath, (REPLY_LEVELS - 1) as nat);
}

/// Who is told of a write. A reply to someone else's comment publishes
/// exactly one notification, to the parent's author; a root comment or a
/// reply to one's own comment publishes none.
pub proof fn law_reply_notifies_parent_author(
    w: BackendView,
    post_id: i64,
    actor: UserId,
    request: CreateCommentRequestView,
    now: i64,
)
    requires
        w.create_outcome(post_id, actor, request, now).1 is Ok,
    ensures
        ({
            let created = w.create_outcome(post_id, actor, request, now);
            let parent = match request.parent_comment_id {
                Some(p) => w.store.lookup(p),
                None => None,
            };
            &&& notifies(parent, actor) ==> created.0.hub == w.hub.published(
                reply_notice(parent->0.user_id, created.1->Ok_0.id, post_id, actor),
            )
            &&& !notifies(parent, actor) ==> created.0.hub == w.hub
        }),
{
}

} // verus!
