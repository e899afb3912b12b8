use blog_backend::analytics::model::{
    AnalyticsError, EngagementParams, InteractionType, PostStatsParams,
};
use blog_backend::analytics::service::{
    custom_range, get_time_range, may_view_engagement, range_days, series_range, DAY_SECONDS,
};
use blog_backend::auth::jwt::Role;
use blog_backend::health::{health_check, protected_health_check};
use blog_backend::ident::UserId;
use blog_backend::post::controller::{
    post_error_to_response, ErrorResponse, PopularPostsParams, PostAction,
};
use blog_backend::post::service::{
    check_unique, process_markdown, trigger_data_generation, DataGenerationRequest, PostError,
};

const NOW: i64 = 1_750_000_000;

fn text(s: &str) -> Option<String> {
    Some(s.to_string())
}

#[test]
fn interactions_are_recorded_by_lowercase_name() {
    assert_eq!(InteractionType::View.as_str(), "view");
    assert_eq!(InteractionType::Like.as_str(), "like");
    assert_eq!(InteractionType::Comment.as_str(), "comment");
    assert_eq!(InteractionType::Share.as_str(), "share");
    assert_eq!(InteractionType::Bookmark.as_str(), "bookmark");
}

#[test]
fn named_ranges_look_back_from_now() {
    assert_eq!(get_time_range(&None, &None, &text("day"), NOW), Ok((NOW - 86_400, NOW)));
    assert_eq!(get_time_range(&None, &None, &text("week"), NOW), Ok((NOW - 604_800, NOW)));
    assert_eq!(get_time_range(&None, &None, &text("month"), NOW), Ok((NOW - 2_592_000, NOW)));
    assert_eq!(get_time_range(&None, &None, &text("year"), NOW), Ok((NOW - 31_536_000, NOW)));
    // anything else, and nothing at all, is a week
    assert_eq!(get_time_range(&None, &None, &text("decade"), NOW), Ok((NOW - 604_800, NOW)));
    assert_eq!(get_time_range(&None, &None, &None, NOW), Ok((NOW - 604_800, NOW)));
    // half a custom range is no custom range
    assert_eq!(
        get_time_range(&text("2025-03-19"), &None, &text("day"), NOW),
        Ok((NOW - 86_400, NOW))
    );
    assert_eq!(range_days(&text("Day")), 7);
    assert_eq!(DAY_SECONDS, 86_400);
}

#[test]
fn custom_range_runs_from_first_second_to_last() {
    assert_eq!(
        get_time_range(&text("2025-03-19"), &text("2025-03-26"), &text("day"), NOW),
        Ok((1_742_342_400, 1_743_033_599))
    );
    assert_eq!(
        get_time_range(&text("2025-03-19"), &text("2025-03-19"), &None, NOW),
        Ok((1_742_342_400, 1_742_428_799))
    );
    assert_eq!(
        get_time_range(&text("1970-01-01"), &text("1970-01-01"), &None, NOW),
        Ok((0, 86_399))
    );
}

#[test]
fn custom_range_must_be_well_formed_and_in_order() {
    assert_eq!(
        get_time_range(&text("2025-03-26"), &text("2025-03-19"), &None, NOW),
        Err(AnalyticsError::InvalidParameter("Start date must be before end date".into()))
    );
    let bad_start = get_time_range(&text("yesterday"), &text("2025-03-19"), &None, NOW);
    match bad_start {
        Err(AnalyticsError::InvalidParameter(m)) => {
            assert!(m.starts_with("Invalid start date format: "), "{}", m);
            assert!(m.len() > "Invalid start date format: ".len());
        }
        other => panic!("unexpected: {:?}", other),
    }
    let bad_end = get_time_range(&text("2025-03-19"), &text("2025-13-40"), &None, NOW);
    match bad_end {
        Err(AnalyticsError::InvalidParameter(m)) => {
            assert!(m.starts_with("Invalid end date format: "), "{}", m)
        }
        other => panic!("unexpected: {:?}", other),
    }
}

#[test]
fn custom_range_from_days_already_read() {
    assert_eq!(custom_range(Ok(0), Ok(0)), Ok((0, 86_399)));
    assert_eq!(custom_range(Ok(86_399), Ok(0)), Ok((86_399, 86_399)));
    assert_eq!(
        custom_range(Ok(86_400), Ok(0)),
        Err(AnalyticsError::InvalidParameter("Start date must be before end date".into()))
    );
    assert_eq!(
        custom_range(Err("bad".into()), Err("worse".into())),
        Err(AnalyticsError::InvalidParameter("Invalid start date format: bad".into()))
    );
    assert_eq!(
        custom_range(Ok(0), Err("worse".into())),
        Err(AnalyticsError::InvalidParameter("Invalid end date format: worse".into()))
    );
    assert_eq!(
        custom_range(Ok(0), Ok(i64::MAX)),
        Err(AnalyticsError::InvalidParameter("Invalid end date format: out of range".into()))
    );
}

#[test]
fn time_series_take_the_four_names_only() {
    assert_eq!(series_range("day", NOW), Ok((NOW - 86_400, NOW, "hour")));
    assert_eq!(series_range("week", NOW), Ok((NOW - 604_800, NOW, "day")));
    assert_eq!(series_range("month", NOW), Ok((NOW - 2_592_000, NOW, "day")));
    assert_eq!(series_range("year", NOW), Ok((NOW - 31_536_000, NOW, "month")));
    assert_eq!(
        series_range("decade", NOW),
        Err(AnalyticsError::InvalidParameter("Invalid time range".into()))
    );
}

#[test]
fn analytics_errors_answer_with_status_and_sentence() {
    assert_eq!(AnalyticsError::InvalidParameter("x".into()).status_code(), 400);
    assert_eq!(AnalyticsError::NotFound.status_code(), 404);
    assert_eq!(AnalyticsError::Unauthorized.status_code(), 401);
    assert_eq!(AnalyticsError::DatabaseError("x".into()).status_code(), 500);
    assert_eq!(AnalyticsError::CacheError("x".into()).status_code(), 500);
    assert_eq!(AnalyticsError::InvalidParameter("x".into()).message(), "Invalid parameter: x");
    assert_eq!(AnalyticsError::DatabaseError("x".into()).message(), "Database error: x");
    assert_eq!(AnalyticsError::CacheError("x".into()).message(), "Cache error: x");
    assert_eq!(AnalyticsError::NotFound.message(), "Not found");
    assert_eq!(AnalyticsError::Unauthorized.message(), "Unauthorized");
}

#[test]
fn query_parameters_hand_out_their_range() {
    let params = EngagementParams {
        time_range: text("week"),
        start_date: text("2025-03-19"),
        end_date: None,
        limit: Some(5),
        offset: None,
    };
    assert_eq!(params.time_range(), text("week"));
    assert_eq!(params.start_date(), text("2025-03-19"));
    assert_eq!(params.end_date(), None);

    let params = PostStatsParams {
        post_id: None,
        time_range: None,
        start_date: text("a"),
        end_date: text("b"),
        limit: Some(5),
        offset: Some(2),
    };
    assert_eq!(params.time_range(), None);
    assert_eq!(params.start_date(), text("a"));
    assert_eq!(params.end_date(), text("b"));
    let narrowed = params.for_post(9);
    assert_eq!(narrowed, PostStatsParams { post_id: Some(9), ..params });
}

#[test]
fn post_errors_answer_by_action() {
    let body = |error: &str, code: &str| ErrorResponse { error: error.into(), code: code.into() };
    assert_eq!(
        post_error_to_response(PostAction::Create, PostError::SlugExists),
        (409, body("Post with this slug already exists", "SLUG_EXISTS"))
    );
    assert_eq!(
        post_error_to_response(PostAction::Update, PostError::TitleExists),
        (409, body("Post with this title already exists", "TITLE_EXISTS"))
    );
    assert_eq!(
        post_error_to_response(PostAction::Create, PostError::InvalidInput("no title".into())),
        (400, body("no title", "INVALID_INPUT"))
    );
    assert_eq!(
        post_error_to_response(PostAction::Get, PostError::NotFound),
        (404, body("Post not found", "NOT_FOUND"))
    );
    assert_eq!(
        post_error_to_response(PostAction::Update, PostError::Unauthorized),
        (403, body("You do not have permission to update this post", "FORBIDDEN"))
    );
    assert_eq!(
        post_error_to_response(PostAction::Delete, PostError::Unauthorized),
        (403, body("You do not have permission to delete this post", "FORBIDDEN"))
    );
    // what an action does not tell of is an internal error
    assert_eq!(
        post_error_to_response(PostAction::Create, PostError::NotFound),
        (500, body("Failed to create post", "INTERNAL_ERROR"))
    );
    assert_eq!(
        post_error_to_response(PostAction::Get, PostError::Unauthorized),
        (500, body("Failed to retrieve post", "INTERNAL_ERROR"))
    );
    assert_eq!(
        post_error_to_response(PostAction::Delete, PostError::SlugExists),
        (500, body("Failed to delete post", "INTERNAL_ERROR"))
    );
    assert_eq!(
        post_error_to_response(PostAction::Update, PostError::DatabaseError("x".into())),
        (500, body("Failed to update post", "INTERNAL_ERROR"))
    );
    assert_eq!(
        post_error_to_response(PostAction::Popular, PostError::CacheError("x".into())),
        (500, body("Failed to retrieve popular posts", "INTERNAL_ERROR"))
    );
    assert_eq!(
        post_error_to_response(PostAction::Get, PostError::InternalError("x".into())),
        (500, body("Failed to retrieve post", "INTERNAL_ERROR"))
    );
}

#[test]
fn post_rules() {
    assert_eq!(process_markdown("# Hi"), "<div class=\"markdown\"># Hi</div>");
    assert_eq!(check_unique(true, true), Err(PostError::SlugExists));
    assert_eq!(check_unique(true, false), Err(PostError::SlugExists));
    assert_eq!(check_unique(false, true), Err(PostError::TitleExists));
    assert_eq!(check_unique(false, false), Ok(()));
    assert_eq!(PopularPostsParams { limit: None }.limit_or_default(), 10);
    assert_eq!(PopularPostsParams { limit: Some(3) }.limit_or_default(), 3);
    let request = DataGenerationRequest { refresh_existing: Some(true), batch_size: None };
    assert_eq!(
        trigger_data_generation(&request),
        "Data generation skipped due to database schema issues"
    );
}

#[test]
fn health_answers() {
    let open = health_check();
    assert_eq!(open.status, "ok");
    assert_eq!(open.message, "Server is running");
    let user = UserId { value: 0x123e4567_e89b_12d3_a456_426614174000 };
    let ok = protected_health_check(user, Role::Admin, true);
    assert_eq!(ok.status, "ok");
    assert_eq!(
        ok.message,
        "Server is running. Authenticated as user: 123e4567-e89b-12d3-a456-426614174000 with role: Admin. Database status: ok"
    );
    let down = protected_health_check(user, Role::User, false);
    assert_eq!(down.status, "ok");
    assert_eq!(
        down.message,
        "Server is running. Authenticated as user: 123e4567-e89b-12d3-a456-426614174000 with role: User. Database status: error"
    );
}

#[test]
fn engagement_is_seen_by_its_owner_admins_and_analysts() {
    let me = UserId { value: 1 };
    let other = UserId { value: 2 };
    assert!(may_view_engagement(me, Role::User, me));
    assert!(may_view_engagement(me, Role::Admin, other));
    assert!(may_view_engagement(me, Role::Analyst, other));
    assert!(!may_view_engagement(me, Role::User, other));
    assert!(!may_view_engagement(me, Role::Author, other));
}
