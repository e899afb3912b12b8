//! Which stretch of time an analytics query covers. Times are seconds since
//! the epoch, in UTC.

use crate::analytics::model::{AnalyticsError, AnalyticsErrorView};
use crate::auth::jwt::Role;
use crate::ident::UserId;
use crate::text::same_text;
use vstd::prelude::*;
use vstd::string::*;

verus! {

/// Seconds in a day.
pub const DAY_SECONDS: i64 = 86400;

/// The longest look back of a named range, in seconds: a year of 365 days.
pub const LONGEST_RANGE_SECONDS: i64 = 31536000;

/// Midnight of the day that a text of the form `YYYY-MM-DD` names, or the
/// parser's complaint about a text that names none.
pub uninterp spec fn parsed_day(text: Seq<char>) -> Result<i64, Seq<char>>;

/// `NaiveDate::parse_from_str` of chrono with the format `%Y-%m-%d`, the day
/// handed back as the timestamp of its first second in UTC and an error as
/// its message. The outcome depends on the text alone.
#[verifier::external_body]
fn parse_day(text: &str) -> (r: Result<i64, String>)
    ensures
        r is Ok == parsed_day(text@) is Ok,
        r is Ok ==> r->Ok_0 == parsed_day(text@)->Ok_0,
        r is Err ==> r->Err_0@ == parsed_day(text@)->Err_0,
{
    match chrono::NaiveDate::parse_from_str(text, "%Y-%m-%d") {
        Ok(day) => Ok(day.and_time(chrono::NaiveTime::MIN).and_utc().timestamp()),
        Err(e) => Err(e.to_string()),
    }
}

/// How many days a named range looks back: a day, a week, 30 days for a
/// month, 365 for a year, and a week for anything else.
pub open spec fn days_back(range: Option<Seq<char>>) -> int {
    if range == Some("day"@) {
        1
    } else if range == Some("week"@) {
        7
    } else if range == Some("month"@) {
        30
    } else if range == Some("year"@) {
        365
    } else {
        7
    }
}

/// The stretch of time between two days that have been read already, from
/// the first second of the first to the last second of the last.
pub open spec fn between(start: Result<i64, Seq<char>>, end: Result<i64, Seq<char>>) -> Result<
    (i64, i64),
    AnalyticsErrorView,
> {
    if start is Err {
        Err(AnalyticsErrorView::InvalidParameter("Invalid start date format: "@ + start->Err_0))
    } else if end is Err {
        Err(AnalyticsErrorView::InvalidParameter("Invalid end date format: "@ + end->Err_0))
    } else if end->Ok_0 + DAY_SECONDS - 1 > i64::MAX {
        Err(AnalyticsErrorView::InvalidParameter("Invalid end date format: out of range"@))
    } else if start->Ok_0 > end->Ok_0 + DAY_SECONDS - 1 {
        Err(AnalyticsErrorView::InvalidParameter("Start date must be before end date"@))
    } else {
        Ok((start->Ok_0, (end->Ok_0 + DAY_SECONDS - 1) as i64))
    }
}

/// The stretch of time a query covers at `now`: the custom range when both
/// of its ends are given, else the named range counted back from now.
pub open spec fn covered(
    start_date: Option<Seq<char>>,
    end_date: Option<Seq<char>>,
    time_range: Option<Seq<char>>,
    now: i64,
) -> Result<(i64, i64), AnalyticsErrorView> {
    if start_date is Some && end_date is Some {
        between(parsed_day(start_date->0), parsed_day(end_date->0))
    } else {
        Ok(((now - days_back(time_range) * DAY_SECONDS) as i64, now))
    }
}

/// The view of an optional text.
pub open spec fn text_view(text: Option<String>) -> Option<Seq<char>> {
    match text {
        Some(t) => Some(t@),
        None => None,
    }
}

/// The view of a stretch of time or the error in its place.
pub open spec fn stretch_view(r: Result<(i64, i64), AnalyticsError>) -> Result<
    (i64, i64),
    AnalyticsErrorView,
> {
    match r {
        Ok(s) => Ok(s),
        Err(e) => Err(e@),
    }
}

/// The stretch of time between two days that have been read already.
pub fn custom_range(start: Result<i64, String>, end: Result<i64, String>) -> (r: Result<
    (i64, i64),
    AnalyticsError,
>)
    ensures
        stretch_view(r) == between(
            match start {
                Ok(s) => Ok(s),
                Err(m) => Err(m@),
            },
            match end {
                Ok(s) => Ok(s),
                Err(m) => Err(m@),
            },
        ),
{
    let first = match start {
        Ok(s) => s,
        Err(m) => {
            let mut out = String::from_str("Invalid start date format: ");
            out.append(m.as_str());
            return Err(AnalyticsError::InvalidParameter(out));
        },
    };
    let last_day = match end {
        Ok(s) => s,
        Err(m) => {
            let mut out = String::from_str("Invalid end date format: ");
            out.append(m.as_str());
            return Err(AnalyticsError::InvalidParameter(out));
        },
    };
    let last = match last_day.checked_add(DAY_SECONDS - 1) {
        Some(t) => t,
        None => {
            return Err(
                AnalyticsError::InvalidParameter(
                    String::from_str("Invalid end date format: out of range"),
                ),
            );
        },
    };
    if first > last {
        return Err(
            AnalyticsError::InvalidParameter(String::from_str("Start date must be before end date")),
        );
    }
    Ok((first, last))
}

/// How many days a named range looks back.
pub fn range_days(time_range: &Option<String>) -> (r: i64)
    ensures
        r == days_back(text_view(*time_range)),
{
    match time_range {
        Some(name) => {
            if same_text(name.as_str(), "day") {
                1
            } else if same_text(name.as_str(), "week") {
                7
            } else if same_text(name.as_str(), "month") {
                30
            } else if same_text(name.as_str(), "year") {
                365
            } else {
                7
            }
        },
        None => 7,
    }
}

/// The stretch of time a query covers at `now`. `now` must leave room to
/// look a year back.
pub fn get_time_range(
    start_date: &Option<String>,
    end_date: &Option<String>,
    time_range: &Option<String>,
    now: i64,
) -> (r: Result<(i64, i64), AnalyticsError>)
    requires
        now - LONGEST_RANGE_SECONDS >= i64::MIN,
    ensures
        stretch_view(r) == covered(
            text_view(*start_date),
            text_view(*end_date),
            text_view(*time_range),
            now,
        ),
{
    match (start_date, end_date) {
        (Some(start), Some(end)) => custom_range(
            parse_day(start.as_str()),
            parse_day(end.as_str()),
        ),
        _ => {
            let days = range_days(time_range);
            Ok((now - days * DAY_SECONDS, now))
        },
    }
}

/// Whether `viewer` may see the engagement of `target`: everyone may see
/// their own, administrators and analysts may see anyone's.
pub fn may_view_engagement(viewer: UserId, role: Role, target: UserId) -> (r: bool)
    ensures
        r == (viewer == target || role == Role::Admin || role == Role::Analyst),
{
    viewer == target || role == Role::Admin || role == Role::Analyst
}

/// The unit by which the statistics of a named range are bucketed, for the
/// four ranges that the time series knows.
pub open spec fn bucket_of(range: Seq<char>) -> Option<Seq<char>> {
    if range == "day"@ {
        Some("hour"@)
    } else if range == "week"@ {
        Some("day"@)
    } else if range == "month"@ {
        Some("day"@)
    } else if range == "year"@ {
        Some("month"@)
    } else {
        None
    }
}

/// The stretch of time and the bucket of a time series over a named range
/// at `now`. Unlike a query, a time series takes none but the four names.
pub fn series_range(time_range: &str, now: i64) -> (r: Result<(i64, i64, &'static str), AnalyticsError>)
    requires
        now - LONGEST_RANGE_SECONDS >= i64::MIN,
    ensures
        r is Ok == bucket_of(time_range@) is Some,
        r is Ok ==> {
            &&& r->Ok_0.0 == now - days_back(Some(time_range@)) * DAY_SECONDS
            &&& r->Ok_0.1 == now
            &&& r->Ok_0.2@ == bucket_of(time_range@)->0
        },
        r is Err ==> r->Err_0@ == AnalyticsErrorView::InvalidParameter("Invalid time range"@),
{
    if same_text(time_range, "day") {
        Ok((now - DAY_SECONDS, now, "hour"))
    } else if same_text(time_range, "week") {
        Ok((now - 7 * DAY_SECONDS, now, "day"))
    } else if same_text(time_range, "month") {
        Ok((now - 30 * DAY_SECONDS, now, "day"))
    } else if same_text(time_range, "year") {
        Ok((now - 365 * DAY_SECONDS, now, "month"))
    } else {
        Err(AnalyticsError::InvalidParameter(String::from_str("Invalid time range")))
    }
}

} // verus!
