//! What the comment endpoints decide once the service has answered: the
//! status and body of an error, and the shape of a page.

use crate::auth::jwt::Role;
use crate::comment::model::{
    response_views,
    CommentError,
    CommentErrorResponse,
    CommentResponse,
    CommentsListResponse,
};
use vstd::prelude::*;
use vstd::string::*;

verus! {

/// Query parameters of a read: the page wanted, counted from 1.
#[derive(Clone, Copy, Debug)]
pub struct CommentsQueryParams {
    page: Option<i64>,
}

impl CommentsQueryParams {
    /// The page wanted, if one was named.
    pub closed spec fn wanted(&self) -> Option<i64> {
        self.page
    }

    /// Parameters that ask for `page`.
    pub fn new(page: Option<i64>) -> (r: Self)
        ensures
            r.wanted() == page,
    {
        CommentsQueryParams { page }
    }

    /// The page wanted, if one was named.
    pub fn page(&self) -> (r: Option<i64>)
        ensures
            r == self.wanted(),
    {
        self.page
    }
}

/// The HTTP status and the body that answer a failed comment request. The
/// body carries a fixed message and the error's stable code; what the
/// database or the cache had to say stays on the server.
pub fn comment_error_to_response(err: CommentError) -> (r: (u16, CommentErrorResponse))
    ensures
        r.0 == err@.status(),
        r.1.error@ == err@.public_message(),
        r.1.code@ == err@.code(),
{
    let status = err.status_code();
    let code = String::from_str(err.code());
    let message = match err {
        CommentError::NotFound => "Comment not found",
        CommentError::PostNotFound => "Post not found",
        CommentError::ParentCommentNotFound => "Parent comment not found",
        CommentError::Unauthorized => "Not authorized to perform this action",
        CommentError::RateLimitExceeded => "Rate limit exceeded, please try again later",
        CommentError::MaxNestingDepthReached => "Maximum nesting depth reached for comments",
        CommentError::ValidationError(_) => "Invalid input",
        CommentError::InvalidComment => "Invalid comment",
        CommentError::DatabaseError(_) => "Internal server error",
        CommentError::CacheError(_) => "Internal server error",
        CommentError::DeserializationError => "Failed to process comment data",
        CommentError::InternalError(_) => "Internal server error",
    };
    (status, CommentErrorResponse { error: String::from_str(message), code })
}

/// The body of a successful read: the page, and the total number of
/// comments, which counts as 0 when it could not be had.
pub fn list_response(comments: Vec<CommentResponse>, count: Result<i64, CommentError>) -> (r:
    CommentsListResponse)
    ensures
        response_views(r.comments@) == response_views(comments@),
        r.total_count == match count {
            Ok(n) => n,
            Err(_) => 0,
        },
{
    let total_count = match count {
        Ok(n) => n,
        Err(_) => 0,
    };
    CommentsListResponse { comments, total_count }
}

/// Whether a role may delete the comments of others.
pub fn is_admin(role: Role) -> (r: bool)
    ensures
        r == (role == Role::Admin),
{
    role == Role::Admin
}

} // verus!
