//! The comment data model: the stored row, the request that creates one,
//! the threaded projection that readers see, and the errors of the comment
//! operations.

use crate::ident::UserId;
use vstd::prelude::*;
use vstd::string::*;

verus! {

/// The deepest nesting level a comment may have; roots are at level 0.
pub const MAX_NESTING_DEPTH: i32 = 3;

/// How many root comments one page holds.
pub const COMMENTS_PER_PAGE: i64 = 20;

/// The longest content a comment may have, in characters.
pub const MAX_CONTENT_CHARS: usize = 5000;

/// A comment as the store holds it. Timestamps are seconds since the epoch.
#[derive(Debug, PartialEq, Eq)]
pub struct Comment {
    pub id: i64,
    pub post_id: i64,
    pub user_id: UserId,
    pub parent_comment_id: Option<i64>,
    pub content: String,
    pub content_html: String,
    pub is_deleted: bool,
    pub deleted_by: Option<UserId>,
    pub deleted_at: Option<i64>,
    pub markdown_enabled: bool,
    pub nesting_level: i32,
    pub created_at: i64,
    pub updated_at: i64,
}

/// The mathematical content of a [`Comment`].
pub struct CommentView {
    pub id: i64,
    pub post_id: i64,
    pub user_id: UserId,
    pub parent_comment_id: Option<i64>,
    pub content: Seq<char>,
    pub content_html: Seq<char>,
    pub is_deleted: bool,
    pub deleted_by: Option<UserId>,
    pub deleted_at: Option<i64>,
    pub markdown_enabled: bool,
    pub nesting_level: i32,
    pub created_at: i64,
    pub updated_at: i64,
}

impl View for Comment {
    type V = CommentView;

    open spec fn view(&self) -> CommentView {
        CommentView {
            id: self.id,
            post_id: self.post_id,
            user_id: self.user_id,
            parent_comment_id: self.parent_comment_id,
            content: self.content@,
            content_html: self.content_html@,
            is_deleted: self.is_deleted,
            deleted_by: self.deleted_by,
            deleted_at: self.deleted_at,
            markdown_enabled: self.markdown_enabled,
            nesting_level: self.nesting_level,
            created_at: self.created_at,
            updated_at: self.updated_at,
        }
    }
}

impl Clone for Comment {
    fn clone(&self) -> (r: Self)
        ensures
            r@ == self@,
    {
        Comment {
            id: self.id,
            post_id: self.post_id,
            user_id: self.user_id,
            parent_comment_id: self.parent_comment_id,
            content: self.content.clone(),
            content_html: self.content_html.clone(),
            is_deleted: self.is_deleted,
            deleted_by: self.deleted_by,
            deleted_at: self.deleted_at,
            markdown_enabled: self.markdown_enabled,
            nesting_level: self.nesting_level,
            created_at: self.created_at,
            updated_at: self.updated_at,
        }
    }
}

/// Request to create a new comment.
#[derive(Debug, PartialEq, Eq)]
pub struct CreateCommentRequest {
    /// The comment content in markdown or plain text.
    pub content: String,
    /// The parent comment when this is a reply.
    pub parent_comment_id: Option<i64>,
    /// Whether the content is markdown.
    pub markdown_enabled: bool,
}

/// The mathematical content of a [`CreateCommentRequest`].
pub struct CreateCommentRequestView {
    pub content: Seq<char>,
    pub parent_comment_id: Option<i64>,
    pub markdown_enabled: bool,
}

impl View for CreateCommentRequest {
    type V = CreateCommentRequestView;

    open spec fn view(&self) -> CreateCommentRequestView {
        CreateCommentRequestView {
            content: self.content@,
            parent_comment_id: self.parent_comment_id,
            markdown_enabled: self.markdown_enabled,
        }
    }
}

/// Who wrote a comment, as shown to readers.
#[derive(Debug, PartialEq, Eq)]
pub struct CommentAuthor {
    pub id: UserId,
    /// The user's display name.
    pub name: String,
}

/// The mathematical content of a [`CommentAuthor`].
pub struct CommentAuthorView {
    pub id: UserId,
    pub name: Seq<char>,
}

impl View for CommentAuthor {
    type V = CommentAuthorView;

    open spec fn view(&self) -> CommentAuthorView {
        CommentAuthorView { id: self.id, name: self.name@ }
    }
}

impl Clone for CommentAuthor {
    fn clone(&self) -> (r: Self)
        ensures
            r@ == self@,
    {
        CommentAuthor { id: self.id, name: self.name.clone() }
    }
}

/// A comment as readers see it, with the replies nested beneath it.
#[derive(Debug, PartialEq, Eq)]
pub struct CommentResponse {
    pub id: i64,
    /// The rendered content.
    pub content_html: String,
    pub author: CommentAuthor,
    pub created_at: i64,
    pub parent_comment_id: Option<i64>,
    /// The replies, oldest first; absent when there are none.
    pub replies: Option<Vec<CommentResponse>>,
}

/// The mathematical content of a [`CommentResponse`]: a finite tree.
pub struct CommentResponseView {
    pub id: i64,
    pub content_html: Seq<char>,
    pub author: CommentAuthorView,
    pub created_at: i64,
    pub parent_comment_id: Option<i64>,
    pub replies: Option<Seq<CommentResponseView>>,
}

impl View for CommentResponse {
    type V = CommentResponseView;

    open spec fn view(&self) -> CommentResponseView
        decreases self,
    {
        CommentResponseView {
            id: self.id,
            content_html: self.content_html@,
            author: self.author@,
            created_at: self.created_at,
            parent_comment_id: self.parent_comment_id,
            replies: match self.replies {
                Some(v) => Some(response_views(v@)),
                None => None,
            },
        }
    }
}

/// The views of a sequence of responses, in order.
pub open spec fn response_views(v: Seq<CommentResponse>) -> Seq<CommentResponseView>
    decreases v,
{
    if v.len() == 0 {
        Seq::empty()
    } else {
        response_views(v.drop_last()).push(v.last().view())
    }
}

/// [`response_views`] keeps the length and views each element in place.
pub proof fn lemma_response_views(v: Seq<CommentResponse>)
    ensures
        response_views(v).len() == v.len(),
        forall|i: int| 0 <= i < v.len() ==> #[trigger] response_views(v)[i] == v[i]@,
    decreases v.len(),
{
    reveal_with_fuel(response_views, 2);
    if v.len() > 0 {
        lemma_response_views(v.drop_last());
    }
}

/// Viewing a list with one more response at its end appends that
/// response's view.
pub proof fn lemma_response_views_push(v: Seq<CommentResponse>, last: CommentResponse)
    ensures
        response_views(v.push(last)) == response_views(v).push(last@),
{
    reveal_with_fuel(response_views, 2);
    assert(v.push(last).drop_last() =~= v);
}

/// Two lists of responses have the same views when they agree element by
/// element.
pub proof fn lemma_response_views_equal(a: Seq<CommentResponse>, b: Seq<CommentResponse>)
    requires
        a.len() == b.len(),
        forall|i: int| 0 <= i < a.len() ==> a[i]@ == b[i]@,
    ensures
        response_views(a) == response_views(b),
{
    lemma_response_views(a);
    lemma_response_views(b);
    assert(response_views(a) =~= response_views(b));
}

/// The replies of a node, an absent list counting as empty.
pub open spec fn replies_of(node: CommentResponseView) -> Seq<CommentResponseView> {
    match node.replies {
        Some(r) => r,
        None => Seq::empty(),
    }
}

/// How many levels of replies hang beneath a node.
pub open spec fn height(node: CommentResponseView) -> nat
    decreases node,
{
    match node.replies {
        Some(r) => 1 + forest_height(r),
        None => 0,
    }
}

/// The greatest [`height`] among the nodes of a forest, 0 when it is empty.
pub open spec fn forest_height(forest: Seq<CommentResponseView>) -> nat
    decreases forest,
{
    if forest.len() == 0 {
        0
    } else {
        let a = height(forest.last());
        let b = forest_height(forest.drop_last());
        if a >= b {
            a
        } else {
            b
        }
    }
}

/// Whether a comment with the given id occurs in the tree.
pub open spec fn mentions(node: CommentResponseView, id: i64) -> bool
    decreases node,
{
    node.id == id || match node.replies {
        Some(r) => forest_mentions(r, id),
        None => false,
    }
}

/// Whether a comment with the given id occurs anywhere in the forest.
pub open spec fn forest_mentions(forest: Seq<CommentResponseView>, id: i64) -> bool
    decreases forest,
{
    if forest.len() == 0 {
        false
    } else {
        mentions(forest.last(), id) || forest_mentions(forest.drop_last(), id)
    }
}

/// Whether a comment with the given id stands within the top `room` levels
/// of the forest, its roots being the first level.
pub open spec fn stands_within(forest: Seq<CommentResponseView>, id: i64, room: nat) -> bool
    decreases forest,
{
    if room == 0 || forest.len() == 0 {
        false
    } else {
        forest.last().id == id || (forest.last().replies is Some && stands_within(
            forest.last().replies->0,
            id,
            (room - 1) as nat,
        )) || stands_within(forest.drop_last(), id, room)
    }
}

/// Whether `reply` stands among the replies of a comment with the id
/// `parent` somewhere in the forest.
pub open spec fn shows_reply(
    forest: Seq<CommentResponseView>,
    parent: i64,
    reply: CommentResponseView,
) -> bool
    decreases forest,
{
    if forest.len() == 0 {
        false
    } else {
        (forest.last().replies is Some && ((forest.last().id == parent
            && forest.last().replies->0.contains(reply)) || shows_reply(
            forest.last().replies->0,
            parent,
            reply,
        ))) || shows_reply(forest.drop_last(), parent, reply)
    }
}

impl CommentResponse {
    /// The view of a response holds the views of its replies, in order.
    pub proof fn lemma_view_of_replies(&self)
        ensures
            self@.id == self.id,
            self@.content_html == self.content_html@,
            self@.author == self.author@,
            self@.created_at == self.created_at,
            self@.parent_comment_id == self.parent_comment_id,
            self.replies is None ==> self@.replies is None,
            self.replies is Some ==> self@.replies == Some(response_views(self.replies->0@)),
    {
        reveal_with_fuel(response_views, 2);
    }
}

impl Clone for CommentResponse {
    fn clone(&self) -> (r: Self)
        ensures
            r@ == self@,
        decreases self,
    {
        let replies = match &self.replies {
            Some(v) => Some(clone_responses(v)),
            None => None,
        };
        let r = CommentResponse {
            id: self.id,
            content_html: self.content_html.clone(),
            author: self.author.clone(),
            created_at: self.created_at,
            parent_comment_id: self.parent_comment_id,
            replies,
        };
        proof {
            r.lemma_view_of_replies();
            self.lemma_view_of_replies();
        }
        r
    }
}

/// A deep copy of a list of responses.
pub fn clone_responses(v: &Vec<CommentResponse>) -> (r: Vec<CommentResponse>)
    ensures
        response_views(r@) == response_views(v@),
    decreases v,
{
    let mut out: Vec<CommentResponse> = Vec::new();
    let mut i: usize = 0;
    while i < v.len()
        invariant
            i <= v.len(),
            out@.len() == i,
            forall|j: int| 0 <= j < i ==> out@[j]@ == v@[j]@,
        decreases v.len() - i,
    {
        assert(decreases_to!(*v => v[i as int]));
        let c = v[i].clone();
        out.push(c);
        i += 1;
    }
    proof {
        lemma_response_views_equal(out@, v@);
    }
    out
}

/// One page of comments with the total number of comments on the post.
#[derive(Debug, PartialEq, Eq)]
pub struct CommentsListResponse {
    pub comments: Vec<CommentResponse>,
    pub total_count: i64,
}

/// What can go wrong in a comment operation. Failures of the database and
/// of the cache carry the collaborator's message.
#[derive(Debug, PartialEq, Eq)]
pub enum CommentError {
    DatabaseError(String),
    NotFound,
    PostNotFound,
    Unauthorized,
    RateLimitExceeded,
    InvalidComment,
    MaxNestingDepthReached,
    ValidationError(String),
    ParentCommentNotFound,
    CacheError(String),
    DeserializationError,
    InternalError(String),
}

/// The mathematical content of a [`CommentError`].
pub enum CommentErrorView {
    DatabaseError(Seq<char>),
    NotFound,
    PostNotFound,
    Unauthorized,
    RateLimitExceeded,
    InvalidComment,
    MaxNestingDepthReached,
    ValidationError(Seq<char>),
    ParentCommentNotFound,
    CacheError(Seq<char>),
    DeserializationError,
    InternalError(Seq<char>),
}

impl View for CommentError {
    type V = CommentErrorView;

    open spec fn view(&self) -> CommentErrorView {
        match self {
            CommentError::DatabaseError(m) => CommentErrorView::DatabaseError(m@),
            CommentError::NotFound => CommentErrorView::NotFound,
            CommentError::PostNotFound => CommentErrorView::PostNotFound,
            CommentError::Unauthorized => CommentErrorView::Unauthorized,
            CommentError::RateLimitExceeded => CommentErrorView::RateLimitExceeded,
            CommentError::InvalidComment => CommentErrorView::InvalidComment,
            CommentError::MaxNestingDepthReached => CommentErrorView::MaxNestingDepthReached,
            CommentError::ValidationError(m) => CommentErrorView::ValidationError(m@),
            CommentError::ParentCommentNotFound => CommentErrorView::ParentCommentNotFound,
            CommentError::CacheError(m) => CommentErrorView::CacheError(m@),
            CommentError::DeserializationError => CommentErrorView::DeserializationError,
            CommentError::InternalError(m) => CommentErrorView::InternalError(m@),
        }
    }
}

/// The body of an error answer: a message for people and a stable code for
/// programs.
#[derive(Debug, PartialEq, Eq)]
pub struct CommentErrorResponse {
    pub error: String,
    pub code: String,
}

impl CommentErrorView {
    /// The stable machine-readable code of the error. Failures of the
    /// database and of the cache share one code and do not say which it was.
    pub open spec fn code(self) -> Seq<char> {
        match self {
            CommentErrorView::NotFound => "NOT_FOUND"@,
            CommentErrorView::PostNotFound => "POST_NOT_FOUND"@,
            CommentErrorView::Unauthorized => "UNAUTHORIZED"@,
            CommentErrorView::RateLimitExceeded => "RATE_LIMITED"@,
            CommentErrorView::InvalidComment => "INVALID_COMMENT"@,
            CommentErrorView::MaxNestingDepthReached => "MAX_DEPTH"@,
            CommentErrorView::ValidationError(_) => "VALIDATION_ERROR"@,
            CommentErrorView::ParentCommentNotFound => "PARENT_NOT_FOUND"@,
            CommentErrorView::CacheError(_) => "INTERNAL_ERROR"@,
            CommentErrorView::DatabaseError(_) => "INTERNAL_ERROR"@,
            CommentErrorView::DeserializationError => "DESERIALIZATION_ERROR"@,
            CommentErrorView::InternalError(_) => "INTERNAL_ERROR"@,
        }
    }

    /// The message of the error as its own description gives it: validation
    /// and internal errors speak for themselves, the collaborators' details
    /// are withheld.
    pub open spec fn description(self) -> Seq<char> {
        match self {
            CommentErrorView::NotFound => "Comment not found"@,
            CommentErrorView::PostNotFound => "Post not found"@,
            CommentErrorView::Unauthorized => "Not authorized to perform this action"@,
            CommentErrorView::RateLimitExceeded => "Rate limit exceeded"@,
            CommentErrorView::InvalidComment => "Invalid comment"@,
            CommentErrorView::MaxNestingDepthReached => "Maximum nesting depth reached for comments"@,
            CommentErrorView::ValidationError(msg) => msg,
            CommentErrorView::ParentCommentNotFound => "Parent comment not found"@,
            CommentErrorView::CacheError(_) => "Internal server error"@,
            CommentErrorView::DatabaseError(_) => "Internal server error"@,
            CommentErrorView::DeserializationError => "Failed to process comment data"@,
            CommentErrorView::InternalError(msg) => msg,
        }
    }

    /// The HTTP status that answers the error.
    pub open spec fn status(self) -> u16 {
        match self {
            CommentErrorView::NotFound => 404,
            CommentErrorView::PostNotFound => 404,
            CommentErrorView::ParentCommentNotFound => 404,
            CommentErrorView::Unauthorized => 401,
            CommentErrorView::RateLimitExceeded => 429,
            CommentErrorView::MaxNestingDepthReached => 400,
            CommentErrorView::ValidationError(_) => 400,
            CommentErrorView::InvalidComment => 400,
            CommentErrorView::DatabaseError(_) => 500,
            CommentErrorView::CacheError(_) => 500,
            CommentErrorView::DeserializationError => 500,
            CommentErrorView::InternalError(_) => 500,
        }
    }

    /// The fixed message that an HTTP answer carries for the error.
    pub open spec fn public_message(self) -> Seq<char> {
        match self {
            CommentErrorView::NotFound => "Comment not found"@,
            CommentErrorView::PostNotFound => "Post not found"@,
            CommentErrorView::ParentCommentNotFound => "Parent comment not found"@,
            CommentErrorView::Unauthorized => "Not authorized to perform this action"@,
            CommentErrorView::RateLimitExceeded => "Rate limit exceeded, please try again later"@,
            CommentErrorView::MaxNestingDepthReached => "Maximum nesting depth reached for comments"@,
            CommentErrorView::ValidationError(_) => "Invalid input"@,
            CommentErrorView::InvalidComment => "Invalid comment"@,
            CommentErrorView::DatabaseError(_) => "Internal server error"@,
            CommentErrorView::CacheError(_) => "Internal server error"@,
            CommentErrorView::DeserializationError => "Failed to process comment data"@,
            CommentErrorView::InternalError(_) => "Internal server error"@,
        }
    }
}

impl CommentError {
    /// The stable machine-readable code of the error.
    pub fn code(&self) -> (r: &'static str)
        ensures
            r@ == self@.code(),
    {
        match self {
            CommentError::NotFound => "NOT_FOUND",
            CommentError::PostNotFound => "POST_NOT_FOUND",
            CommentError::Unauthorized => "UNAUTHORIZED",
            CommentError::RateLimitExceeded => "RATE_LIMITED",
            CommentError::InvalidComment => "INVALID_COMMENT",
            CommentError::MaxNestingDepthReached => "MAX_DEPTH",
            CommentError::ValidationError(_) => "VALIDATION_ERROR",
            CommentError::ParentCommentNotFound => "PARENT_NOT_FOUND",
            CommentError::CacheError(_) => "INTERNAL_ERROR",
            CommentError::DatabaseError(_) => "INTERNAL_ERROR",
            CommentError::DeserializationError => "DESERIALIZATION_ERROR",
            CommentError::InternalError(_) => "INTERNAL_ERROR",
        }
    }

    /// The HTTP status that answers the error.
    pub fn status_code(&self) -> (r: u16)
        ensures
            r == self@.status(),
    {
        match self {
            CommentError::NotFound => 404,
            CommentError::PostNotFound => 404,
            CommentError::ParentCommentNotFound => 404,
            CommentError::Unauthorized => 401,
            CommentError::RateLimitExceeded => 429,
            CommentError::MaxNestingDepthReached => 400,
            CommentError::ValidationError(_) => 400,
            CommentError::InvalidComment => 400,
            CommentError::DatabaseError(_) => 500,
            CommentError::CacheError(_) => 500,
            CommentError::DeserializationError => 500,
            CommentError::InternalError(_) => 500,
        }
    }
}

impl CommentErrorResponse {
    /// The body that describes an error: its own message and its code.
    pub fn from_error(err: CommentError) -> (r: CommentErrorResponse)
        ensures
            r.error@ == err@.description(),
            r.code@ == err@.code(),
    {
        let code = String::from_str(err.code());
        let error = match err {
            CommentError::NotFound => String::from_str("Comment not found"),
            CommentError::PostNotFound => String::from_str("Post not found"),
            CommentError::Unauthorized => String::from_str("Not authorized to perform this action"),
            CommentError::RateLimitExceeded => String::from_str("Rate limit exceeded"),
            CommentError::InvalidComment => String::from_str("Invalid comment"),
            CommentError::MaxNestingDepthReached => String::from_str(
                "Maximum nesting depth reached for comments",
            ),
            CommentError::ValidationError(msg) => msg,
            CommentError::ParentCommentNotFound => String::from_str("Parent comment not found"),
            CommentError::CacheError(_) => String::from_str("Internal server error"),
            CommentError::DatabaseError(_) => String::from_str("Internal server error"),
            CommentError::DeserializationError => String::from_str("Failed to process comment data"),
            CommentError::InternalError(msg) => msg,
        };
        CommentErrorResponse { error, code }
    }
}

} // verus!
