use blog_backend::cache::facade::{
    comment_stream, engagement_key, notification_channel, popular_posts_key, post_counters_key,
    post_id_key, post_slug_key, post_stats_key, user_engagement_key, CacheError, CacheKey,
    RedisCache, RedisConfig,
};
use blog_backend::comment::model::CommentError;
use blog_backend::comment::rules::{
    can_delete, check_content, child_level, page_offset, process_markdown, validate_content,
    ChangeEvent, ChangeKind,
};
use blog_backend::ident::UserId;
use blog_backend::text::{append_decimal, char_count, decimal_text, prefixed_decimal, same_text};

#[test]
fn decimal_of_small_and_extreme_numbers() {
    assert_eq!(decimal_text(0), "0");
    assert_eq!(decimal_text(7), "7");
    assert_eq!(decimal_text(10), "10");
    assert_eq!(decimal_text(-1), "-1");
    assert_eq!(decimal_text(1234567890), "1234567890");
    assert_eq!(decimal_text(i64::MAX), "9223372036854775807");
    assert_eq!(decimal_text(i64::MIN), "-9223372036854775808");
}

#[test]
fn decimal_agrees_with_the_standard_rendering() {
    for n in [-1000i64, -99, -10, -9, 0, 9, 10, 99, 100, 101, 65535, 1 << 40] {
        assert_eq!(decimal_text(n), n.to_string());
    }
}

#[test]
fn decimal_is_appended_and_prefixed() {
    let mut s = String::from("n=");
    append_decimal(&mut s, -42);
    assert_eq!(s, "n=-42");
    assert_eq!(prefixed_decimal("post:", 12), "post:12");
}

#[test]
fn texts_are_compared_by_characters() {
    assert!(same_text("abc", "abc"));
    assert!(!same_text("abc", "abd"));
    assert!(!same_text("abc", "ab"));
    assert_eq!(char_count("héllo"), 5);
    assert_eq!(char_count(""), 0);
}

#[test]
fn plain_content_is_escaped() {
    assert_eq!(
        process_markdown("<b>Tom & \"Jerry\"</b> it's 1/2", false),
        "&lt;b&gt;Tom &amp; &quot;Jerry&quot;&lt;&#x2F;b&gt; it&#x27;s 1&#x2F;2"
    );
    assert_eq!(process_markdown("plain text", false), "plain text");
    assert_eq!(process_markdown("", false), "");
    assert_eq!(process_markdown("grüße <ö>", false), "grüße &lt;ö&gt;");
}

#[test]
fn markdown_content_is_wrapped_not_escaped() {
    assert_eq!(
        process_markdown("**hi** <b>", true),
        "<div class=\"markdown\">**hi** <b></div>"
    );
}

#[test]
fn blank_content_is_refused() {
    let empty = CommentError::ValidationError("Comment content cannot be empty".into());
    assert_eq!(validate_content(""), Err(empty));
    assert!(validate_content("   \t\n ").is_err());
    assert!(validate_content("\u{a0}\u{2003}").is_err());
    assert_eq!(validate_content("  x  "), Ok(()));
}

#[test]
fn content_length_is_counted_in_characters() {
    let too_long = CommentError::ValidationError("Comment content exceeds maximum length".into());
    assert_eq!(validate_content(&"a".repeat(5000)), Ok(()));
    assert_eq!(validate_content(&"a".repeat(5001)), Err(too_long));
    assert_eq!(validate_content(&"ü".repeat(5000)), Ok(()));
    assert!(validate_content(&"ü".repeat(5001)).is_err());
}

#[test]
fn content_is_judged_by_blankness_first() {
    assert_eq!(
        check_content(true, 6000),
        Err(CommentError::ValidationError("Comment content cannot be empty".into()))
    );
    assert_eq!(
        check_content(false, 5001),
        Err(CommentError::ValidationError("Comment content exceeds maximum length".into()))
    );
    assert_eq!(check_content(false, 5000), Ok(()));
    assert_eq!(check_content(false, 1), Ok(()));
}

#[test]
fn replies_sit_one_level_below_their_parent() {
    assert_eq!(child_level(0), Ok(1));
    assert_eq!(child_level(1), Ok(2));
    assert_eq!(child_level(2), Ok(3));
    assert_eq!(child_level(3), Err(CommentError::MaxNestingDepthReached));
    assert_eq!(child_level(i32::MAX), Err(CommentError::MaxNestingDepthReached));
}

#[test]
fn authors_and_the_privileged_may_delete() {
    let a = UserId { value: 1 };
    let b = UserId { value: 2 };
    assert!(can_delete(a, a, false));
    assert!(can_delete(a, b, true));
    assert!(can_delete(a, a, true));
    assert!(!can_delete(a, b, false));
}

#[test]
fn pages_hold_twenty_roots() {
    assert_eq!(page_offset(None), Some(0));
    assert_eq!(page_offset(Some(1)), Some(0));
    assert_eq!(page_offset(Some(2)), Some(20));
    assert_eq!(page_offset(Some(11)), Some(200));
    assert_eq!(page_offset(Some(0)), Some(-20));
    assert_eq!(page_offset(Some(i64::MAX)), None);
    assert_eq!(page_offset(Some(i64::MIN)), None);
}

#[test]
fn cache_keys_follow_the_layout() {
    let user = UserId { value: 0x123e4567_e89b_12d3_a456_426614174000 };
    assert_eq!(CacheKey::CommentPage(42).render(), "comments:post:42");
    assert_eq!(CacheKey::CommentCount(42).render(), "post:comment_count:42");
    assert_eq!(
        CacheKey::RateLimit(user).render(),
        "rate_limit:comment:123e4567-e89b-12d3-a456-426614174000"
    );
    assert_eq!(CacheKey::CommentPage(-7).render(), "comments:post:-7");
    assert_eq!(comment_stream(), "stream:comments");
    assert_eq!(
        notification_channel(&user),
        "notifications:user:123e4567-e89b-12d3-a456-426614174000"
    );
}

#[test]
fn post_keys_follow_the_layout() {
    let user = UserId { value: 1 };
    assert_eq!(post_id_key(5), "post:id:5");
    assert_eq!(post_slug_key("hello-world"), "post:slug:hello-world");
    assert_eq!(popular_posts_key(), "popular_posts");
    assert_eq!(post_counters_key(5), "stats:post:5");
    assert_eq!(post_stats_key(5), "post_stats:5");
    assert_eq!(
        user_engagement_key(&user),
        "user_engagement:00000000-0000-0000-0000-000000000001"
    );
    assert_eq!(
        engagement_key(&user, 9),
        "engagement:user:00000000-0000-0000-0000-000000000001:post:9"
    );
}

#[test]
fn cache_errors_say_what_failed() {
    assert_eq!(CacheError::RedisError("x".into()).message(), "Redis error: x");
    assert_eq!(CacheError::SerializationError("x".into()).message(), "Serialization error: x");
    assert_eq!(
        CacheError::DeserializationError("x".into()).message(),
        "Deserialization error: x"
    );
    assert_eq!(CacheError::OperationFailed("x".into()).message(), "Cache operation failed: x");
}

#[test]
fn cache_facade_carries_its_client_and_settings() {
    let client = redis::Client::open("redis://127.0.0.1:6379/").unwrap();
    let cache = RedisCache::new(client, None);
    assert_eq!(cache.get_client().get_connection_info().addr.to_string(), "127.0.0.1:6379");

    let client = redis::Client::open("redis://cache.example:7000/").unwrap();
    let config = RedisConfig { post_stats_ttl: Some(60), user_engagement_ttl: None };
    let cache = RedisCache::new(client, Some(config));
    assert_eq!(cache.get_client().get_connection_info().addr.to_string(), "cache.example:7000");
    let copy = cache.clone();
    assert_eq!(copy.get_client().get_connection_info().addr.to_string(), "cache.example:7000");
}

#[test]
fn change_events_are_spelled_for_the_stream() {
    let created = ChangeEvent {
        kind: ChangeKind::Created,
        post_id: 3,
        comment_id: 17,
        parent_id: Some(9),
    };
    assert_eq!(created.name(), "comment_created");
    assert_eq!(created.post_field(), "3");
    assert_eq!(created.comment_field(), "17");
    assert_eq!(created.parent_field(), Some("9".to_string()));

    let root = ChangeEvent { parent_id: None, ..created };
    assert_eq!(root.parent_field(), Some("null".to_string()));

    let deleted = ChangeEvent {
        kind: ChangeKind::Deleted,
        post_id: 3,
        comment_id: 17,
        parent_id: None,
    };
    assert_eq!(deleted.name(), "comment_deleted");
    assert_eq!(deleted.parent_field(), None);
}
