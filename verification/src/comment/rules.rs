//! The rules of the comment write path that need no collaborator: which
//! content is acceptable, how deep a reply may sit, how content is rendered,
//! who may delete, and what a change looks like in the change stream.

use crate::comment::model::{
    Comment,
    CommentAuthor,
    CommentAuthorView,
    CommentError,
    CommentErrorView,
    CommentResponse,
    CommentResponseView,
    CommentView,
    CreateCommentRequest,
    CreateCommentRequestView,
    COMMENTS_PER_PAGE,
    MAX_CONTENT_CHARS,
    MAX_NESTING_DEPTH,
};
use crate::ident::UserId;
use crate::store::{NewComment, NewCommentView};
use crate::text::{char_count, decimal, decimal_text, escape_html, escaped, trim, trimmed};
use vstd::prelude::*;
use vstd::string::*;

verus! {

/// What is wrong with a content of the given size, if anything: it must not
/// be blank and must not exceed the maximum length.
pub open spec fn size_verdict(blank: bool, chars: int) -> Option<Seq<char>> {
    if blank {
        Some("Comment content cannot be empty"@)
    } else if chars > MAX_CONTENT_CHARS {
        Some("Comment content exceeds maximum length"@)
    } else {
        None
    }
}

/// What is wrong with a content, if anything. Blank means that nothing is
/// left once surrounding whitespace is trimmed; length is counted in
/// characters.
pub open spec fn content_verdict(content: Seq<char>) -> Option<Seq<char>> {
    size_verdict(trimmed(content).len() == 0, content.len() as int)
}

/// Judges a content by whether it is blank and by its length in
/// characters.
pub fn check_content(blank: bool, chars: usize) -> (r: Result<(), CommentError>)
    ensures
        r is Ok == size_verdict(blank, chars as int) is None,
        r is Err ==> r->Err_0@ == CommentErrorView::ValidationError(
            size_verdict(blank, chars as int)->0,
        ),
{
    if blank {
        Err(CommentError::ValidationError(String::from_str("Comment content cannot be empty")))
    } else if chars > MAX_CONTENT_CHARS {
        Err(
            CommentError::ValidationError(
                String::from_str("Comment content exceeds maximum length"),
            ),
        )
    } else {
        Ok(())
    }
}

/// Judges a content before anything else is touched.
pub fn validate_content(content: &str) -> (r: Result<(), CommentError>)
    ensures
        r is Ok == content_verdict(content@) is None,
        r is Err ==> r->Err_0@ == CommentErrorView::ValidationError(content_verdict(content@)->0),
{
    let rest = trim(content);
    let blank = char_count(rest) == 0;
    check_content(blank, char_count(content))
}

/// The nesting level of a new comment: 0 without a parent, one below the
/// parent otherwise, and refused when that would exceed the maximum.
pub open spec fn level_for(parent: Option<CommentView>) -> Result<i32, CommentErrorView> {
    match parent {
        None => Ok(0),
        Some(p) => if p.nesting_level >= MAX_NESTING_DEPTH {
            Err(CommentErrorView::MaxNestingDepthReached)
        } else {
            Ok((p.nesting_level + 1) as i32)
        },
    }
}

/// The nesting level of a reply to a comment at `parent_level`.
pub fn child_level(parent_level: i32) -> (r: Result<i32, CommentError>)
    ensures
        r is Ok == (parent_level < MAX_NESTING_DEPTH),
        r is Ok ==> r->Ok_0 == parent_level + 1,
        r is Err ==> r->Err_0@ == CommentErrorView::MaxNestingDepthReached,
{
    if parent_level >= MAX_NESTING_DEPTH {
        Err(CommentError::MaxNestingDepthReached)
    } else {
        Ok(parent_level + 1)
    }
}

/// The display form of a content: markdown is wrapped in its container,
/// plain text has its HTML-significant characters escaped.
pub open spec fn rendered(content: Seq<char>, markdown_enabled: bool) -> Seq<char> {
    if markdown_enabled {
        "<div class=\"markdown\">"@ + content + "</div>"@
    } else {
        escaped(content)
    }
}

/// Renders a content into its display form.
pub fn process_markdown(content: &str, markdown_enabled: bool) -> (r: String)
    ensures
        r@ == rendered(content@, markdown_enabled),
{
    if !markdown_enabled {
        return escape_html(content);
    }
    let mut out = String::from_str("<div class=\"markdown\">");
    out.append(content);
    out.append("</div>");
    out
}

/// Whether `actor` may delete a comment written by `author`: authors may
/// delete their own comments, the privileged may delete any.
pub open spec fn may_delete(author: UserId, actor: UserId, is_privileged: bool) -> bool {
    author == actor || is_privileged
}

/// Decides whether `actor` may delete a comment written by `author`.
pub fn can_delete(author: UserId, actor: UserId, is_privileged: bool) -> (r: bool)
    ensures
        r == may_delete(author, actor, is_privileged),
{
    author == actor || is_privileged
}

/// How many roots precede a page: pages start at 1 and hold a fixed number
/// of roots; without a page number the first page is meant. There is no
/// offset when the number does not fit.
pub open spec fn offset_of(page: Option<i64>) -> Option<i64> {
    let p = match page {
        Some(p) => p,
        None => 1,
    };
    if i64::MIN <= (p - 1) * COMMENTS_PER_PAGE <= i64::MAX {
        Some(((p - 1) * COMMENTS_PER_PAGE) as i64)
    } else {
        None
    }
}

/// Computes how many roots precede a page.
pub fn page_offset(page: Option<i64>) -> (r: Option<i64>)
    ensures
        r == offset_of(page),
{
    let p = match page {
        Some(p) => p,
        None => 1,
    };
    match p.checked_sub(1) {
        Some(before) => before.checked_mul(COMMENTS_PER_PAGE),
        None => {
            assert((p - 1) * 20 < i64::MIN);
            None
        },
    }
}

/// The comment that a request asks to write, once its level is known.
pub open spec fn drafted(
    post_id: i64,
    actor: UserId,
    request: CreateCommentRequestView,
    level: i32,
    now: i64,
) -> NewCommentView {
    NewCommentView {
        post_id,
        user_id: actor,
        parent_comment_id: request.parent_comment_id,
        content: request.content,
        content_html: rendered(request.content, request.markdown_enabled),
        markdown_enabled: request.markdown_enabled,
        nesting_level: level,
        created_at: now,
    }
}

/// Drafts the comment that a request asks to write.
pub fn draft(
    post_id: i64,
    actor: UserId,
    request: &CreateCommentRequest,
    level: i32,
    now: i64,
) -> (r: NewComment)
    ensures
        r@ == drafted(post_id, actor, request@, level, now),
{
    NewComment {
        post_id,
        user_id: actor,
        parent_comment_id: request.parent_comment_id,
        content: request.content.clone(),
        content_html: process_markdown(request.content.as_str(), request.markdown_enabled),
        markdown_enabled: request.markdown_enabled,
        nesting_level: level,
        created_at: now,
    }
}

/// How a freshly written comment is shown: with its author and without
/// replies.
pub open spec fn shown(comment: CommentView, author: CommentAuthorView) -> CommentResponseView {
    CommentResponseView {
        id: comment.id,
        content_html: comment.content_html,
        author,
        created_at: comment.created_at,
        parent_comment_id: comment.parent_comment_id,
        replies: None,
    }
}

/// Builds the response for a freshly written comment.
pub fn show(comment: &Comment, author: CommentAuthor) -> (r: CommentResponse)
    ensures
        r@ == shown(comment@, author@),
{
    let r = CommentResponse {
        id: comment.id,
        content_html: comment.content_html.clone(),
        author,
        created_at: comment.created_at,
        parent_comment_id: comment.parent_comment_id,
        replies: None,
    };
    proof {
        r.lemma_view_of_replies();
    }
    r
}

/// Whether writing a reply calls for a notification: the parent's author is
/// told, unless they wrote the reply themselves.
pub open spec fn notifies(parent: Option<CommentView>, actor: UserId) -> bool {
    parent is Some && parent->0.user_id != actor
}

/// Whom to tell of a new comment on a post: the post's author, unless the
/// post has none or they wrote the comment themselves.
pub fn post_author_to_notify(post_author: Option<UserId>, commenter: UserId) -> (r: Option<UserId>)
    ensures
        r == match post_author {
            Some(author) => if author != commenter {
                Some(author)
            } else {
                None
            },
            None => None,
        },
{
    match post_author {
        Some(author) => {
            if author != commenter {
                Some(author)
            } else {
                None
            }
        },
        None => None,
    }
}

/// Whether a structural change created or deleted a comment.
#[derive(Clone, Copy, Debug, PartialEq, Eq, Structural)]
pub enum ChangeKind {
    Created,
    Deleted,
}

/// One entry of the change stream.
#[derive(Clone, Copy, Debug, PartialEq, Eq, Structural)]
pub struct ChangeEvent {
    pub kind: ChangeKind,
    pub post_id: i64,
    pub comment_id: i64,
    /// The parent of a created comment. Not recorded for deletions.
    pub parent_id: Option<i64>,
}

impl ChangeEvent {
    /// The entry for a created comment.
    pub open spec fn created(post_id: i64, comment_id: i64, parent_id: Option<i64>) -> ChangeEvent {
        ChangeEvent { kind: ChangeKind::Created, post_id, comment_id, parent_id }
    }

    /// The entry for a deleted comment.
    pub open spec fn deleted(post_id: i64, comment_id: i64) -> ChangeEvent {
        ChangeEvent { kind: ChangeKind::Deleted, post_id, comment_id, parent_id: None }
    }

    /// The name of the event in the stream.
    pub open spec fn event_name(self) -> Seq<char> {
        match self.kind {
            ChangeKind::Created => "comment_created"@,
            ChangeKind::Deleted => "comment_deleted"@,
        }
    }

    /// The parent as the stream spells it: its decimal id, or `null`.
    pub open spec fn parent_text(self) -> Seq<char> {
        match self.parent_id {
            Some(p) => decimal(p as int),
            None => "null"@,
        }
    }

    /// The name of the event in the stream.
    pub fn name(&self) -> (r: &'static str)
        ensures
            r@ == self.event_name(),
    {
        match self.kind {
            ChangeKind::Created => "comment_created",
            ChangeKind::Deleted => "comment_deleted",
        }
    }

    /// The post id as the stream spells it.
    pub fn post_field(&self) -> (r: String)
        ensures
            r@ == decimal(self.post_id as int),
    {
        decimal_text(self.post_id)
    }

    /// The comment id as the stream spells it.
    pub fn comment_field(&self) -> (r: String)
        ensures
            r@ == decimal(self.comment_id as int),
    {
        decimal_text(self.comment_id)
    }

    /// The parent as the stream spells it, for created comments; deletions
    /// carry no such field.
    pub fn parent_field(&self) -> (r: Option<String>)
        ensures
            r is Some == (self.kind == ChangeKind::Created),
            r is Some ==> r->0@ == self.parent_text(),
    {
        match self.kind {
            ChangeKind::Created => match self.parent_id {
                Some(p) => Some(decimal_text(p)),
                None => Some(String::from_str("null")),
            },
            ChangeKind::Deleted => None,
        }
    }
}

} // verus!
