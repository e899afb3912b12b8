//! The rules of the post operations that need no collaborator.

use vstd::prelude::*;
use vstd::string::*;

verus! {

/// What can go wrong in a post operation.
#[derive(Debug, PartialEq, Eq)]
pub enum PostError {
    DatabaseError(String),
    CacheError(String),
    NotFound,
    SlugExists,
    TitleExists,
    Unauthorized,
    InvalidInput(String),
    InternalError(String),
}

/// Request to generate data.
#[derive(Clone, Copy, Debug, PartialEq, Eq)]
pub struct DataGenerationRequest {
    pub refresh_existing: Option<bool>,
    pub batch_size: Option<i64>,
}

/// The display form of a post's content: the content in its markdown
/// container.
pub open spec fn rendered_post(content: Seq<char>) -> Seq<char> {
    "<div class=\"markdown\">"@ + content + "</div>"@
}

/// Renders the content of a post into its display form.
pub fn process_markdown(content: &str) -> (r: String)
    ensures
        r@ == rendered_post(content@),
{
    let mut out = String::from_str("<div class=\"markdown\">");
    out.append(content);
    out.append("</div>");
    out
}

/// What the first of two checks on a new slug and title refuses: a slug
/// that is taken, then a title that is taken.
pub fn check_unique(slug_taken: bool, title_taken: bool) -> (r: Result<(), PostError>)
    ensures
        slug_taken ==> r == Err::<(), PostError>(PostError::SlugExists),
        !slug_taken && title_taken ==> r == Err::<(), PostError>(PostError::TitleExists),
        !slug_taken && !title_taken ==> r is Ok,
{
    if slug_taken {
        Err(PostError::SlugExists)
    } else if title_taken {
        Err(PostError::TitleExists)
    } else {
        Ok(())
    }
}

/// What data generation answers: it is not carried out.
pub fn trigger_data_generation(request: &DataGenerationRequest) -> (r: String)
    ensures
        r@ == "Data generation skipped due to database schema issues"@,
{
    String::from_str("Data generation skipped due to database schema issues")
}

} // verus!
