//! What the post endpoints decide once the service has answered.

use crate::post::service::PostError;
use vstd::prelude::*;
use vstd::string::*;

verus! {

/// How many popular posts are listed when no limit is given.
pub const DEFAULT_POPULAR_LIMIT: i64 = 10;

/// Query parameters of the list of popular posts.
#[derive(Clone, Copy, Debug, PartialEq, Eq)]
pub struct PopularPostsParams {
    pub limit: Option<i64>,
}

impl PopularPostsParams {
    /// How many posts are wanted: the limit given, or the default.
    pub fn limit_or_default(&self) -> (r: i64)
        ensures
            r == match self.limit {
                Some(l) => l,
                None => DEFAULT_POPULAR_LIMIT,
            },
    {
        match self.limit {
            Some(l) => l,
            None => DEFAULT_POPULAR_LIMIT,
        }
    }
}

/// Body of a failed answer.
#[derive(Debug, PartialEq, Eq)]
pub struct ErrorResponse {
    pub error: String,
    pub code: String,
}

/// The post operations, as far as their errors are answered differently.
#[derive(Clone, Copy, Debug, PartialEq, Eq, Structural)]
pub enum PostAction {
    Create,
    Get,
    Update,
    Delete,
    Popular,
}

impl PostAction {
    /// What the action is called in a message.
    pub open spec fn verb(self) -> Seq<char> {
        match self {
            PostAction::Create => "create post"@,
            PostAction::Get => "retrieve post"@,
            PostAction::Update => "update post"@,
            PostAction::Delete => "delete post"@,
            PostAction::Popular => "retrieve popular posts"@,
        }
    }

    /// What the action is called where permission is denied.
    pub open spec fn deed(self) -> Seq<char> {
        match self {
            PostAction::Update => "update"@,
            _ => "delete"@,
        }
    }

    /// Whether a failed action of this kind says that the post was not
    /// found.
    pub open spec fn tells_not_found(self) -> bool {
        self == PostAction::Get || self == PostAction::Update || self == PostAction::Delete
    }

    /// Whether a failed action of this kind says that permission is
    /// denied.
    pub open spec fn tells_forbidden(self) -> bool {
        self == PostAction::Update || self == PostAction::Delete
    }

    /// Whether a failed action of this kind says which input was at fault.
    pub open spec fn tells_input(self) -> bool {
        self == PostAction::Create || self == PostAction::Update
    }
}

/// The status, message and code that answer a failed post action. What an
/// action does not tell of is answered as an internal error.
pub open spec fn answer_for(action: PostAction, err: PostError) -> (u16, Seq<char>, Seq<char>) {
    match err {
        PostError::NotFound if action.tells_not_found() => (
            404,
            "Post not found"@,
            "NOT_FOUND"@,
        ),
        PostError::Unauthorized if action.tells_forbidden() => (
            403,
            "You do not have permission to "@ + action.deed() + " this post"@,
            "FORBIDDEN"@,
        ),
        PostError::SlugExists if action.tells_input() => (
            409,
            "Post with this slug already exists"@,
            "SLUG_EXISTS"@,
        ),
        PostError::TitleExists if action.tells_input() => (
            409,
            "Post with this title already exists"@,
            "TITLE_EXISTS"@,
        ),
        PostError::InvalidInput(msg) if action.tells_input() => (400, msg@, "INVALID_INPUT"@),
        _ => (500, "Failed to "@ + action.verb(), "INTERNAL_ERROR"@),
    }
}

fn action_verb(action: PostAction) -> (r: &'static str)
    ensures
        r@ == action.verb(),
{
    match action {
        PostAction::Create => "create post",
        PostAction::Get => "retrieve post",
        PostAction::Update => "update post",
        PostAction::Delete => "delete post",
        PostAction::Popular => "retrieve popular posts",
    }
}

fn internal(action: PostAction) -> (r: (u16, ErrorResponse))
    ensures
        r.0 == 500,
        r.1.error@ == "Failed to "@ + action.verb(),
        r.1.code@ == "INTERNAL_ERROR"@,
{
    let mut error = String::from_str("Failed to ");
    error.append(action_verb(action));
    (500, ErrorResponse { error, code: String::from_str("INTERNAL_ERROR") })
}

/// The status and body that answer a failed post action.
pub fn post_error_to_response(action: PostAction, err: PostError) -> (r: (u16, ErrorResponse))
    ensures
        r.0 == answer_for(action, err).0,
        r.1.error@ == answer_for(action, err).1,
        r.1.code@ == answer_for(action, err).2,
{
    let finds = match action {
        PostAction::Get | PostAction::Update | PostAction::Delete => true,
        _ => false,
    };
    let forbids = match action {
        PostAction::Update | PostAction::Delete => true,
        _ => false,
    };
    let inputs = match action {
        PostAction::Create | PostAction::Update => true,
        _ => false,
    };
    match err {
        PostError::NotFound => {
            if finds {
                (
                    404,
                    ErrorResponse {
                        error: String::from_str("Post not found"),
                        code: String::from_str("NOT_FOUND"),
                    },
                )
            } else {
                internal(action)
            }
        },
        PostError::Unauthorized => {
            if forbids {
                let mut error = String::from_str("You do not have permission to ");
                let deed = match action {
                    PostAction::Update => "update",
                    _ => "delete",
                };
                error.append(deed);
                error.append(" this post");
                (403, ErrorResponse { error, code: String::from_str("FORBIDDEN") })
            } else {
                internal(action)
            }
        },
        PostError::SlugExists => {
            if inputs {
                (
                    409,
                    ErrorResponse {
                        error: String::from_str("Post with this slug already exists"),
                        code: String::from_str("SLUG_EXISTS"),
                    },
                )
            } else {
                internal(action)
            }
        },
        PostError::TitleExists => {
            if inputs {
                (
                    409,
                    ErrorResponse {
                        error: String::from_str("Post with this title already exists"),
                        code: String::from_str("TITLE_EXISTS"),
                    },
                )
            } else {
                internal(action)
            }
        },
        PostError::InvalidInput(msg) => {
            if inputs {
                (400, ErrorResponse { error: msg, code: String::from_str("INVALID_INPUT") })
            } else {
                internal(action)
            }
        },
        _ => internal(action),
    }
}

} // verus!
