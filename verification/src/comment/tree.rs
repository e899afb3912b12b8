//! Assembling threads. Replies are fetched level by level, all replies of
//! one level in a single read; the forest is then put together from the
//! roots and the fetched levels. The result is the same as walking the
//! store thread by thread, which is how the contracts describe it.

use crate::comment::model::{
    lemma_response_views_push,
    forest_height,
    forest_mentions,
    height,
    mentions,
    response_views,
    CommentResponse,
    CommentResponseView,
    MAX_NESTING_DEPTH,
};
use crate::store::{
    oldest_first,
    lemma_oldest_first,
    lemma_oldest_first_selected,
    lemma_selected_members,
    lemma_selected_twice,
    row_views,
    selected,
    CommentRow,
    CommentRowView,
    Selection,
    StoreView,
};
use crate::comment::model::CommentView;
use vstd::prelude::*;

verus! {

/// How many levels of replies are materialized beneath a root.
pub const REPLY_LEVELS: usize = 3;

/// A comment shown with the given replies beneath it. An empty list of
/// replies is shown as no list at all.
pub open spec fn node(row: CommentRowView, kids: Seq<CommentResponseView>) -> CommentResponseView {
    CommentResponseView {
        id: row.comment.id,
        content_html: row.comment.content_html,
        author: row.author,
        created_at: row.comment.created_at,
        parent_comment_id: row.comment.parent_comment_id,
        replies: if kids.len() == 0 {
            None
        } else {
            Some(kids)
        },
    }
}

/// Whether replies are looked for beneath a comment: not beneath one that
/// already sits at the deepest level.
pub open spec fn expandable(row: CommentRowView) -> bool {
    row.comment.nesting_level < MAX_NESTING_DEPTH
}

/// The ids of the rows beneath which replies are looked for, in order.
pub open spec fn expand_ids(rows: Seq<CommentRowView>) -> Seq<i64>
    decreases rows.len(),
{
    if rows.len() == 0 {
        Seq::empty()
    } else if expandable(rows.last()) {
        expand_ids(rows.drop_last()).push(rows.last().comment.id)
    } else {
        expand_ids(rows.drop_last())
    }
}

/// The rows that are replies to `parent`, in the order they stand in.
pub open spec fn replies_in(rows: Seq<CommentRowView>, parent: i64) -> Seq<CommentRowView>
    decreases rows.len(),
{
    if rows.len() == 0 {
        Seq::empty()
    } else if rows.last().comment.parent_comment_id == Some(parent) {
        replies_in(rows.drop_last(), parent).push(rows.last())
    } else {
        replies_in(rows.drop_last(), parent)
    }
}

/// The forest put together from `rows` and the levels of replies fetched
/// beneath them: the replies of a row are the rows of the first level that
/// name it as parent, with their own replies taken from the levels after.
pub open spec fn assembled(rows: Seq<CommentRowView>, levels: Seq<Seq<CommentRowView>>) -> Seq<
    CommentResponseView,
>
    decreases levels.len(), rows.len(),
{
    if rows.len() == 0 {
        Seq::empty()
    } else {
        let kids = if levels.len() > 0 && expandable(rows.last()) {
            assembled(replies_in(levels[0], rows.last().comment.id), levels.skip(1))
        } else {
            Seq::empty()
        };
        assembled(rows.drop_last(), levels).push(node(rows.last(), kids))
    }
}

/// The threads of `rows` as the store holds them, followed `depth` levels
/// down: beneath each row its live replies, oldest first, and so on.
pub open spec fn threads(store: StoreView, rows: Seq<CommentRowView>, depth: nat) -> Seq<
    CommentResponseView,
>
    decreases depth, rows.len(),
{
    if rows.len() == 0 {
        Seq::empty()
    } else {
        let kids = if depth > 0 && expandable(rows.last()) {
            threads(store, store.replies_to(rows.last().comment.id), (depth - 1) as nat)
        } else {
            Seq::empty()
        };
        threads(store, rows.drop_last(), depth).push(node(rows.last(), kids))
    }
}

/// The levels of replies that are fetched beneath `rows`, at most `budget`
/// of them: each level holds the live replies to the expandable rows of the
/// level before, and fetching stops when a level has no expandable row.
pub open spec fn levels_beneath(store: StoreView, rows: Seq<CommentRowView>, budget: nat) -> Seq<
    Seq<CommentRowView>,
>
    decreases budget,
{
    if budget == 0 || expand_ids(rows).len() == 0 {
        Seq::empty()
    } else {
        let level = store.replies_to_any(expand_ids(rows));
        seq![level] + levels_beneath(store, level, (budget - 1) as nat)
    }
}

/// The page of threads of a post: its live roots, newest first, each with
/// its replies down to the deepest level. There is no page for a negative
/// offset.
pub open spec fn forest(store: StoreView, post_id: i64, limit: i64, offset: i64) -> Option<
    Seq<CommentResponseView>,
> {
    match store.root_page(post_id, limit, offset) {
        Some(roots) => Some(threads(store, roots, REPLY_LEVELS as nat)),
        None => None,
    }
}

/// The views of the fetched levels.
pub open spec fn level_views(levels: Seq<Vec<CommentRow>>) -> Seq<Seq<CommentRowView>> {
    levels.map_values(|l: Vec<CommentRow>| row_views(l@))
}

proof fn lemma_expand_ids(rows: Seq<CommentRowView>)
    ensures
        forall|i: int|
            0 <= i < rows.len() && expandable(rows[i]) ==> expand_ids(rows).contains(
                (#[trigger] rows[i]).comment.id,
            ),
    decreases rows.len(),
{
    if rows.len() > 0 {
        let front = rows.drop_last();
        lemma_expand_ids(front);
        let ids = expand_ids(rows);
        assert forall|i: int| 0 <= i < rows.len() && expandable(rows[i]) implies ids.contains(
            (#[trigger] rows[i]).comment.id,
        ) by {
            if i < front.len() {
                assert(front[i] == rows[i]);
                let k = choose|k: int|
                    0 <= k < expand_ids(front).len() && expand_ids(front)[k] == front[i].comment.id;
                assert(ids[k] == rows[i].comment.id);
            } else {
                assert(ids[ids.len() - 1] == rows[i].comment.id);
            }
        }
    }
}

proof fn lemma_replies_in_members(rows: Seq<CommentRowView>, parent: i64)
    ensures
        forall|k: int|
            0 <= k < replies_in(rows, parent).len() ==> rows.contains(
                #[trigger] replies_in(rows, parent)[k],
            ),
    decreases rows.len(),
{
    if rows.len() > 0 {
        let front = rows.drop_last();
        lemma_replies_in_members(front, parent);
        let r = replies_in(rows, parent);
        let f = replies_in(front, parent);
        assert forall|k: int| 0 <= k < r.len() implies rows.contains(#[trigger] r[k]) by {
            if k < f.len() {
                assert(r[k] == f[k]);
                let j = choose|j: int| 0 <= j < front.len() && front[j] == f[k];
                assert(rows[j] == r[k]);
            } else {
                assert(rows[rows.len() - 1] == r[k]);
            }
        }
    }
}

/// Among the live replies to several comments, the replies to one of them
/// are exactly the store's live replies to it.
proof fn lemma_replies_of_one(store: StoreView, parents: Seq<i64>, parent: i64)
    requires
        parents.contains(parent),
    ensures
        replies_in(store.replies_to_any(parents), parent) == store.replies_to(parent),
{
    let any = Selection::LiveRepliesToAny(parents);
    let one = Selection::LiveRepliesTo(parent);
    let picked = selected(store.comments, any);
    lemma_selected_twice(store.comments, any, one);
    lemma_selected_members(store.comments, any);
    lemma_oldest_first(picked);
    lemma_oldest_first_selected(picked, one);
    assert forall|i: int| 0 <= i < oldest_first(picked).len() implies !(#[trigger] oldest_first(
        picked,
    )[i]).is_deleted by {
        assert(oldest_first(picked).contains(oldest_first(picked)[i]));
        assert(picked.contains(oldest_first(picked)[i]));
    }
    lemma_rows_filter(store, oldest_first(picked), parent);
}

proof fn lemma_rows_filter(store: StoreView, live: Seq<CommentView>, parent: i64)
    requires
        forall|i: int| 0 <= i < live.len() ==> !(#[trigger] live[i]).is_deleted,
    ensures
        replies_in(store.rows(live), parent) == store.rows(
            selected(live, Selection::LiveRepliesTo(parent)),
        ),
    decreases live.len(),
{
    let one = Selection::LiveRepliesTo(parent);
    if live.len() > 0 {
        let front = live.drop_last();
        assert forall|i: int| 0 <= i < front.len() implies !(#[trigger] front[i]).is_deleted by {
            assert(front[i] == live[i]);
        }
        lemma_rows_filter(store, front, parent);
        assert(store.rows(live).drop_last() =~= store.rows(front));
        assert(store.rows(live).last() == store.row(live.last()));
        assert(!live[live.len() - 1].is_deleted);
        if one.takes(live.last()) {
            assert(store.rows(selected(front, one).push(live.last())) =~= store.rows(
                selected(front, one),
            ).push(store.row(live.last())));
        }
    } else {
        assert(store.rows(live) =~= Seq::<CommentRowView>::empty());
        assert(store.rows(selected(live, one)) =~= Seq::<CommentRowView>::empty());
    }
}

/// Putting a forest together from the levels fetched beneath it gives the
/// threads as the store holds them.
pub proof fn lemma_assembled_is_threads(
    store: StoreView,
    rows: Seq<CommentRowView>,
    fetched_beneath: Seq<CommentRowView>,
    budget: nat,
)
    requires
        forall|i: int| 0 <= i < rows.len() ==> fetched_beneath.contains(#[trigger] rows[i]),
    ensures
        assembled(rows, levels_beneath(store, fetched_beneath, budget)) == threads(
            store,
            rows,
            budget,
        ),
    decreases budget, rows.len(),
{
    let levels = levels_beneath(store, fetched_beneath, budget);
    if rows.len() > 0 {
        let front = rows.drop_last();
        let last = rows.last();
        assert forall|i: int| 0 <= i < front.len() implies fetched_beneath.contains(
            #[trigger] front[i],
        ) by {
            assert(front[i] == rows[i]);
        }
        lemma_assembled_is_threads(store, front, fetched_beneath, budget);
        assert(fetched_beneath.contains(rows[rows.len() - 1]));
        if budget > 0 && expandable(last) {
            lemma_expand_ids(fetched_beneath);
            let ids = expand_ids(fetched_beneath);
            assert(ids.contains(last.comment.id));
            assert(ids.len() > 0);
            let level = store.replies_to_any(ids);
            let rest = levels_beneath(store, level, (budget - 1) as nat);
            assert(levels == seq![level] + rest);
            assert(levels[0] == level);
            assert(levels.skip(1) =~= rest);
            lemma_replies_of_one(store, ids, last.comment.id);
            let kids_rows = replies_in(level, last.comment.id);
            lemma_replies_in_members(level, last.comment.id);
            lemma_assembled_is_threads(store, kids_rows, level, (budget - 1) as nat);
        } else if budget > 0 {
        } else {
            assert(levels.len() == 0);
        }
    }
}

/// A forest of threads is never higher than the number of levels followed.
pub proof fn lemma_threads_height(store: StoreView, rows: Seq<CommentRowView>, depth: nat)
    ensures
        threads(store, rows, depth).len() == rows.len(),
        forest_height(threads(store, rows, depth)) <= depth,
    decreases depth, rows.len(),
{
    reveal_with_fuel(forest_height, 2);
    reveal_with_fuel(height, 2);
    if rows.len() > 0 {
        lemma_threads_height(store, rows.drop_last(), depth);
        let t = threads(store, rows, depth);
        assert(t.drop_last() =~= threads(store, rows.drop_last(), depth));
        if depth > 0 && expandable(rows.last()) {
            lemma_threads_height(
                store,
                store.replies_to(rows.last().comment.id),
                (depth - 1) as nat,
            );
        }
    }
}

/// The threads of `rows` stand in the same order as the rows: the k-th
/// thread is the k-th row shown with its replies.
pub proof fn lemma_threads_index(store: StoreView, rows: Seq<CommentRowView>, depth: nat, k: int)
    requires
        0 <= k < rows.len(),
    ensures
        threads(store, rows, depth).len() == rows.len(),
        threads(store, rows, depth)[k] == node(
            rows[k],
            if depth > 0 && expandable(rows[k]) {
                threads(store, store.replies_to(rows[k].comment.id), (depth - 1) as nat)
            } else {
                Seq::empty()
            },
        ),
    decreases rows.len(),
{
    lemma_threads_height(store, rows, depth);
    lemma_threads_height(store, rows.drop_last(), depth);
    if k < rows.len() - 1 {
        lemma_threads_index(store, rows.drop_last(), depth, k);
    }
}

/// Every comment that occurs in a forest of threads is a live comment of
/// the store, provided the rows at the top are.
pub proof fn lemma_threads_mention_live(
    store: StoreView,
    rows: Seq<CommentRowView>,
    depth: nat,
    id: i64,
)
    requires
        forall|i: int|
            0 <= i < rows.len() ==> store.comments.contains((#[trigger] rows[i]).comment)
                && !rows[i].comment.is_deleted,
        forest_mentions(threads(store, rows, depth), id),
    ensures
        exists|i: int|
            0 <= i < store.comments.len() && (#[trigger] store.comments[i]).id == id
                && !store.comments[i].is_deleted,
    decreases depth, rows.len(),
{
    reveal_with_fuel(forest_mentions, 2);
    reveal_with_fuel(mentions, 2);
    if rows.len() > 0 {
        let front = rows.drop_last();
        let last = rows.last();
        let t = threads(store, rows, depth);
        assert(t.drop_last() =~= threads(store, front, depth));
        if mentions(t.last(), id) {
            if last.comment.id == id {
                assert(store.comments.contains(rows[rows.len() - 1].comment));
                let i = choose|i: int|
                    0 <= i < store.comments.len() && store.comments[i] == last.comment;
                assert(store.comments[i].id == id);
            } else {
                let kids_rows = store.replies_to(last.comment.id);
                let which = Selection::LiveRepliesTo(last.comment.id);
                store.lemma_read_members(which);
                let picked = store.read(which);
                assert forall|i: int| 0 <= i < kids_rows.len() implies store.comments.contains(
                    (#[trigger] kids_rows[i]).comment,
                ) && !kids_rows[i].comment.is_deleted by {
                    assert(kids_rows[i].comment == picked[i]);
                    assert(picked.contains(picked[i]));
                }
                lemma_threads_mention_live(store, kids_rows, (depth - 1) as nat, id);
            }
        } else {
            assert forall|i: int| 0 <= i < front.len() implies store.comments.contains(
                (#[trigger] front[i]).comment,
            ) && !front[i].comment.is_deleted by {
                assert(front[i] == rows[i]);
            }
            lemma_threads_mention_live(store, front, depth, id);
        }
    }
}

/// The ids of the rows beneath which replies are looked for.
pub fn parents_to_expand(rows: &Vec<CommentRow>) -> (r: Vec<i64>)
    ensures
        r@ == expand_ids(row_views(rows@)),
{
    let mut out: Vec<i64> = Vec::new();
    let mut i: usize = 0;
    while i < rows.len()
        invariant
            i <= rows.len(),
            out@ == expand_ids(row_views(rows@).take(i as int)),
        decreases rows.len() - i,
    {
        proof {
            let v = row_views(rows@);
            assert(v.take(i as int + 1).drop_last() =~= v.take(i as int));
            assert(v.take(i as int + 1).last() == rows@[i as int]@);
        }
        if rows[i].comment.nesting_level < MAX_NESTING_DEPTH {
            out.push(rows[i].comment.id);
        }
        i += 1;
    }
    assert(row_views(rows@).take(i as int) =~= row_views(rows@));
    out
}

/// The rows that are replies to `parent`, in the order they stand in.
pub fn pick_replies(rows: &Vec<CommentRow>, parent: i64) -> (r: Vec<CommentRow>)
    ensures
        row_views(r@) == replies_in(row_views(rows@), parent),
{
    let mut out: Vec<CommentRow> = Vec::new();
    let mut i: usize = 0;
    while i < rows.len()
        invariant
            i <= rows.len(),
            row_views(out@) == replies_in(row_views(rows@).take(i as int), parent),
        decreases rows.len() - i,
    {
        proof {
            let v = row_views(rows@);
            assert(v.take(i as int + 1).drop_last() =~= v.take(i as int));
            assert(v.take(i as int + 1).last() == rows@[i as int]@);
        }
        let is_reply = match rows[i].comment.parent_comment_id {
            Some(p) => p == parent,
            None => false,
        };
        if is_reply {
            let ghost before = out@;
            let copy = rows[i].clone();
            out.push(copy);
            assert(row_views(out@) =~= row_views(before).push(rows@[i as int]@));
        }
        i += 1;
    }
    assert(row_views(rows@).take(i as int) =~= row_views(rows@));
    out
}

/// Shows a row with the given replies beneath it.
pub fn make_node(row: &CommentRow, kids: Vec<CommentResponse>) -> (r: CommentResponse)
    ensures
        r@ == node(row@, response_views(kids@)),
{
    let replies = if kids.len() == 0 {
        None
    } else {
        Some(kids)
    };
    let r = CommentResponse {
        id: row.comment.id,
        content_html: row.comment.content_html.clone(),
        author: row.author.clone(),
        created_at: row.comment.created_at,
        parent_comment_id: row.comment.parent_comment_id,
        replies,
    };
    proof {
        r.lemma_view_of_replies();
        crate::comment::model::lemma_response_views(kids@);
    }
    r
}

/// Puts the forest together from `rows` and the levels of replies fetched
/// beneath them, the levels before `depth` being those above the rows.
pub fn assemble(rows: &Vec<CommentRow>, levels: &Vec<Vec<CommentRow>>, depth: usize) -> (r: Vec<
    CommentResponse,
>)
    requires
        depth <= levels.len(),
    ensures
        response_views(r@) == assembled(row_views(rows@), level_views(levels@).skip(depth as int)),
    decreases levels.len() - depth,
{
    let ghost rest = level_views(levels@).skip(depth as int);
    let mut out: Vec<CommentResponse> = Vec::new();
    let mut i: usize = 0;
    assert(response_views(out@) =~= Seq::<CommentResponseView>::empty()) by {
        reveal_with_fuel(response_views, 2);
    }
    while i < rows.len()
        invariant
            i <= rows.len(),
            depth <= levels.len(),
            rest == level_views(levels@).skip(depth as int),
            response_views(out@) == assembled(row_views(rows@).take(i as int), rest),
        decreases rows.len() - i,
    {
        let row = &rows[i];
        let kids = if depth < levels.len() && row.comment.nesting_level < MAX_NESTING_DEPTH {
            let beneath = pick_replies(&levels[depth], row.comment.id);
            proof {
                assert(rest[0] == row_views(levels@[depth as int]@));
                assert(rest.skip(1) =~= level_views(levels@).skip(depth as int + 1));
            }
            assemble(&beneath, levels, depth + 1)
        } else {
            let none: Vec<CommentResponse> = Vec::new();
            assert(response_views(none@) =~= Seq::<CommentResponseView>::empty()) by {
                reveal_with_fuel(response_views, 2);
            }
            none
        };
        let shown = make_node(row, kids);
        proof {
            let v = row_views(rows@);
            assert(v.take(i as int + 1).drop_last() =~= v.take(i as int));
            assert(v.take(i as int + 1).last() == rows@[i as int]@);
            lemma_response_views_push(out@, shown);
        }
        out.push(shown);
        i += 1;
    }
    assert(row_views(rows@).take(i as int) =~= row_views(rows@));
    out
}

} // verus!
