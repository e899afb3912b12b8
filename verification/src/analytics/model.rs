//! The vocabulary of the analytics endpoints: kinds of interaction, query
//! parameters, and errors.

use vstd::prelude::*;
use vstd::string::*;

verus! {

/// The kinds of interaction a user may have with a post or a comment.
#[derive(Clone, Copy, Debug, PartialEq, Eq, Structural)]
pub enum InteractionType {
    View,
    Like,
    Comment,
    Share,
    Bookmark,
}

impl InteractionType {
    /// The lowercase name under which the interaction is recorded.
    pub open spec fn name(self) -> Seq<char> {
        match self {
            InteractionType::View => "view"@,
            InteractionType::Like => "like"@,
            InteractionType::Comment => "comment"@,
            InteractionType::Share => "share"@,
            InteractionType::Bookmark => "bookmark"@,
        }
    }

    /// The lowercase name under which the interaction is recorded.
    pub fn as_str(&self) -> (r: &'static str)
        ensures
            r@ == self.name(),
    {
        match self {
            InteractionType::View => "view",
            InteractionType::Like => "like",
            InteractionType::Comment => "comment",
            InteractionType::Share => "share",
            InteractionType::Bookmark => "bookmark",
        }
    }
}

fn copy_text(text: &Option<String>) -> (r: Option<String>)
    ensures
        r == *text,
{
    match text {
        Some(t) => Some(t.clone()),
        None => None,
    }
}

/// Query parameters for engagement analytics.
#[derive(Debug, PartialEq, Eq)]
pub struct EngagementParams {
    /// Time range: "day", "week", "month" or "year".
    pub time_range: Option<String>,
    /// Start date of a custom range, as YYYY-MM-DD.
    pub start_date: Option<String>,
    /// End date of a custom range, as YYYY-MM-DD.
    pub end_date: Option<String>,
    /// Maximum number of results.
    pub limit: Option<i64>,
    /// Offset for pagination.
    pub offset: Option<i64>,
}

impl EngagementParams {
    /// The start date of a custom range, if given.
    pub fn start_date(&self) -> (r: Option<String>)
        ensures
            r == self.start_date,
    {
        copy_text(&self.start_date)
    }

    /// The end date of a custom range, if given.
    pub fn end_date(&self) -> (r: Option<String>)
        ensures
            r == self.end_date,
    {
        copy_text(&self.end_date)
    }

    /// The named time range, if given.
    pub fn time_range(&self) -> (r: Option<String>)
        ensures
            r == self.time_range,
    {
        copy_text(&self.time_range)
    }
}

/// Query parameters for post statistics.
#[derive(Debug, PartialEq, Eq)]
pub struct PostStatsParams {
    /// The post to report on, if only one is wanted.
    pub post_id: Option<i64>,
    /// Time range: "day", "week", "month" or "year".
    pub time_range: Option<String>,
    /// Start date of a custom range, as YYYY-MM-DD.
    pub start_date: Option<String>,
    /// End date of a custom range, as YYYY-MM-DD.
    pub end_date: Option<String>,
    /// Maximum number of results.
    pub limit: Option<i64>,
    /// Offset for pagination.
    pub offset: Option<i64>,
}

impl PostStatsParams {
    /// The start date of a custom range, if given.
    pub fn start_date(&self) -> (r: Option<String>)
        ensures
            r == self.start_date,
    {
        copy_text(&self.start_date)
    }

    /// The end date of a custom range, if given.
    pub fn end_date(&self) -> (r: Option<String>)
        ensures
            r == self.end_date,
    {
        copy_text(&self.end_date)
    }

    /// The named time range, if given.
    pub fn time_range(&self) -> (r: Option<String>)
        ensures
            r == self.time_range,
    {
        copy_text(&self.time_range)
    }

    /// The same parameters narrowed to one post.
    pub fn for_post(&self, post_id: i64) -> (r: PostStatsParams)
        ensures
            r.post_id == Some(post_id),
            r.time_range == self.time_range,
            r.start_date == self.start_date,
            r.end_date == self.end_date,
            r.limit == self.limit,
            r.offset == self.offset,
    {
        PostStatsParams {
            post_id: Some(post_id),
            time_range: copy_text(&self.time_range),
            start_date: copy_text(&self.start_date),
            end_date: copy_text(&self.end_date),
            limit: self.limit,
            offset: self.offset,
        }
    }
}

/// What can go wrong in an analytics operation.
#[derive(Debug, PartialEq, Eq)]
pub enum AnalyticsError {
    DatabaseError(String),
    CacheError(String),
    InvalidParameter(String),
    NotFound,
    Unauthorized,
}

/// The mathematical content of an [`AnalyticsError`].
pub enum AnalyticsErrorView {
    DatabaseError(Seq<char>),
    CacheError(Seq<char>),
    InvalidParameter(Seq<char>),
    NotFound,
    Unauthorized,
}

impl View for AnalyticsError {
    type V = AnalyticsErrorView;

    open spec fn view(&self) -> AnalyticsErrorView {
        match self {
            AnalyticsError::DatabaseError(m) => AnalyticsErrorView::DatabaseError(m@),
            AnalyticsError::CacheError(m) => AnalyticsErrorView::CacheError(m@),
            AnalyticsError::InvalidParameter(m) => AnalyticsErrorView::InvalidParameter(m@),
            AnalyticsError::NotFound => AnalyticsErrorView::NotFound,
            AnalyticsError::Unauthorized => AnalyticsErrorView::Unauthorized,
        }
    }
}

impl AnalyticsErrorView {
    /// The HTTP status that answers the error.
    pub open spec fn status(self) -> u16 {
        match self {
            AnalyticsErrorView::InvalidParameter(_) => 400,
            AnalyticsErrorView::NotFound => 404,
            AnalyticsErrorView::Unauthorized => 401,
            _ => 500,
        }
    }

    /// The sentence that describes the error.
    pub open spec fn sentence(self) -> Seq<char> {
        match self {
            AnalyticsErrorView::DatabaseError(m) => "Database error: "@ + m,
            AnalyticsErrorView::CacheError(m) => "Cache error: "@ + m,
            AnalyticsErrorView::InvalidParameter(m) => "Invalid parameter: "@ + m,
            AnalyticsErrorView::NotFound => "Not found"@,
            AnalyticsErrorView::Unauthorized => "Unauthorized"@,
        }
    }
}

impl AnalyticsError {
    /// The HTTP status that answers the error.
    pub fn status_code(&self) -> (r: u16)
        ensures
            r == self@.status(),
    {
        match self {
            AnalyticsError::InvalidParameter(_) => 400,
            AnalyticsError::NotFound => 404,
            AnalyticsError::Unauthorized => 401,
            _ => 500,
        }
    }

    /// The sentence that describes the error.
    pub fn message(&self) -> (r: String)
        ensures
            r@ == self@.sentence(),
    {
        match self {
            AnalyticsError::DatabaseError(m) => {
                let mut out = String::from_str("Database error: ");
                out.append(m.as_str());
                out
            },
            AnalyticsError::CacheError(m) => {
                let mut out = String::from_str("Cache error: ");
                out.append(m.as_str());
                out
            },
            AnalyticsError::InvalidParameter(m) => {
                let mut out = String::from_str("Invalid parameter: ");
                out.append(m.as_str());
                out
            },
            AnalyticsError::NotFound => String::from_str("Not found"),
            AnalyticsError::Unauthorized => String::from_str("Unauthorized"),
        }
    }
}

} // verus!
