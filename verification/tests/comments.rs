use blog_backend::auth::jwt::Role;
use blog_backend::cache::memory::MemoryCache;
use blog_backend::cache::facade::CacheKey;
use blog_backend::comment::controller::{
    comment_error_to_response, is_admin, list_response, CommentsQueryParams,
};
use blog_backend::comment::model::{
    CommentError, CommentErrorResponse, CommentResponse, CreateCommentRequest,
};
use blog_backend::comment::rules::{ChangeEvent, ChangeKind};
use blog_backend::comment::service::CommentService;
use blog_backend::ident::UserId;
use blog_backend::notification::hub::NotificationHub;
use blog_backend::notification::model::NotificationType;
use blog_backend::store::CommentStore;

const POST: i64 = 1;

fn user(n: u128) -> UserId {
    UserId { value: n }
}

fn plain(content: &str, parent: Option<i64>) -> CreateCommentRequest {
    CreateCommentRequest {
        content: content.to_string(),
        parent_comment_id: parent,
        markdown_enabled: false,
    }
}

fn service(cached: bool) -> CommentService {
    let mut store = CommentStore::new();
    for n in 1..=30u128 {
        store.add_user(user(n), format!("user{}", n));
    }
    store.add_post(POST);
    store.add_post(2);
    let cache = if cached { Some(MemoryCache::new()) } else { None };
    CommentService::new(store, cache, NotificationHub::new())
}

#[test]
fn reply_shows_beneath_its_parent() {
    let mut svc = service(true);
    let c1 = svc.create_comment(POST, user(1), plain("hi", None), 0).unwrap();
    let c2 = svc.create_comment(POST, user(2), plain("nice", Some(c1.id)), 0).unwrap();
    assert_eq!(c2.parent_comment_id, Some(c1.id));
    assert_eq!(c2.replies, None);

    let page = svc.get_post_comments(POST, None, true, 1).unwrap();
    assert_eq!(page.len(), 1);
    assert_eq!(page[0].id, c1.id);
    assert_eq!(page[0].content_html, "hi");
    assert_eq!(page[0].parent_comment_id, None);
    let replies = page[0].replies.as_ref().unwrap();
    assert_eq!(replies.len(), 1);
    assert_eq!(replies[0].id, c2.id);
    assert_eq!(replies[0].content_html, "nice");
    assert_eq!(replies[0].parent_comment_id, Some(c1.id));
    assert_eq!(replies[0].author.id, user(2));
    assert_eq!(replies[0].author.name, "user2");
    assert_eq!(replies[0].replies, None);

    let row = svc.store().find_comment(c2.id).unwrap();
    assert_eq!(row.nesting_level, 1);
    assert_eq!(row.parent_comment_id, Some(c1.id));
    assert_eq!(svc.store().find_comment(c1.id).unwrap().nesting_level, 0);
}

#[test]
fn oversized_content_is_refused_and_touches_nothing() {
    let mut svc = service(true);
    let err = svc
        .create_comment(POST, user(1), plain(&"x".repeat(5001), None), 0)
        .unwrap_err();
    assert_eq!(
        err,
        CommentError::ValidationError("Comment content exceeds maximum length".into())
    );
    assert_eq!(err.code(), "VALIDATION_ERROR");
    assert_eq!(svc.store().len(), 0);
    assert!(svc.change_log().is_empty());
    // no rate-limit marker was set: the same actor may write at once
    assert!(svc.create_comment(POST, user(1), plain("ok", None), 0).is_ok());
}

#[test]
fn blank_content_is_refused_and_touches_nothing() {
    let mut svc = service(true);
    let err = svc.create_comment(POST, user(1), plain("   ", None), 0).unwrap_err();
    assert_eq!(err, CommentError::ValidationError("Comment content cannot be empty".into()));
    assert_eq!(svc.store().len(), 0);
    assert!(svc.create_comment(POST, user(1), plain("ok", None), 0).is_ok());
}

#[test]
fn no_reply_goes_beneath_the_deepest_level() {
    let mut svc = service(true);
    let c1 = svc.create_comment(POST, user(1), plain("one", None), 0).unwrap();
    let c2 = svc.create_comment(POST, user(2), plain("two", Some(c1.id)), 0).unwrap();
    let c3 = svc.create_comment(POST, user(3), plain("three", Some(c2.id)), 0).unwrap();
    assert_eq!(svc.store().find_comment(c3.id).unwrap().nesting_level, 2);
    let c4 = svc.create_comment(POST, user(4), plain("four", Some(c3.id)), 0).unwrap();
    assert_eq!(svc.store().find_comment(c4.id).unwrap().nesting_level, 3);

    let rows = svc.store().len();
    let err = svc
        .create_comment(POST, user(5), plain("five", Some(c4.id)), 0)
        .unwrap_err();
    assert_eq!(err, CommentError::MaxNestingDepthReached);
    assert_eq!(err.code(), "MAX_DEPTH");
    assert_eq!(svc.store().len(), rows);

    // the chain is read back three reply levels deep and no deeper
    let page = svc.get_post_comments(POST, None, false, 1).unwrap();
    let l1 = page[0].replies.as_ref().unwrap();
    let l2 = l1[0].replies.as_ref().unwrap();
    let l3 = l2[0].replies.as_ref().unwrap();
    assert_eq!((l1[0].id, l2[0].id, l3[0].id), (c2.id, c3.id, c4.id));
    assert_eq!(l3[0].replies, None);
}

#[test]
fn subscriber_is_told_of_replies_by_others_only() {
    let mut svc = service(true);
    let c1 = svc.create_comment(POST, user(1), plain("mine", None), 0).unwrap();
    let subscription = svc.hub_mut().subscribe(user(1)).unwrap();
    let bystander = svc.hub_mut().subscribe(user(3)).unwrap();

    let c2 = svc.create_comment(POST, user(2), plain("reply", Some(c1.id)), 0).unwrap();
    let inbox = svc.hub_mut().take(subscription);
    assert_eq!(inbox.len(), 1);
    assert_eq!(inbox[0].recipient_id, user(1));
    assert_eq!(inbox[0].notification_type, NotificationType::CommentReply);
    assert_eq!(inbox[0].object_id, c2.id);
    assert_eq!(inbox[0].related_object_id, Some(POST));
    assert_eq!(inbox[0].actor_id, user(2));
    assert_eq!(inbox[0].content, "You have a new reply to your comment.");
    assert!(svc.hub_mut().take(subscription).is_empty());
    assert!(svc.hub_mut().take(bystander).is_empty());

    // a reply to one's own comment tells nobody
    svc.create_comment(POST, user(1), plain("self", Some(c1.id)), 200).unwrap();
    assert!(svc.hub_mut().take(subscription).is_empty());
    // nor does a root comment
    svc.create_comment(POST, user(4), plain("root", None), 200).unwrap();
    assert!(svc.hub_mut().take(subscription).is_empty());
}

#[test]
fn second_comment_within_the_window_is_rate_limited() {
    let mut svc = service(true);
    assert!(svc.create_comment(POST, user(1), plain("first", None), 1000).is_ok());
    let err = svc.create_comment(POST, user(1), plain("second", None), 1050).unwrap_err();
    assert_eq!(err, CommentError::RateLimitExceeded);
    assert_eq!(err.code(), "RATE_LIMITED");
    assert_eq!(
        svc.create_comment(POST, user(1), plain("again", None), 1099),
        Err(CommentError::RateLimitExceeded)
    );
    assert_eq!(svc.store().len(), 1);
    // the attempts did not extend the window
    let third = svc.create_comment(POST, user(1), plain("third", None), 1100);
    assert!(third.is_ok());
    assert_eq!(svc.store().len(), 2);
    // another actor was never limited
    assert!(svc.create_comment(POST, user(2), plain("other", None), 1100).is_ok());
}

#[test]
fn rate_limit_begins_even_when_the_write_fails_later() {
    let mut svc = service(true);
    assert_eq!(
        svc.create_comment(99, user(1), plain("nowhere", None), 0),
        Err(CommentError::PostNotFound)
    );
    assert_eq!(
        svc.create_comment(POST, user(1), plain("here", None), 10),
        Err(CommentError::RateLimitExceeded)
    );
}

#[test]
fn without_a_cache_nobody_is_rate_limited() {
    let mut svc = service(false);
    assert!(svc.create_comment(POST, user(1), plain("a", None), 0).is_ok());
    assert!(svc.create_comment(POST, user(1), plain("b", None), 0).is_ok());
    assert!(svc.change_log().is_empty());
    assert_eq!(svc.get_comment_count(POST, 0), Ok(2));
}

#[test]
fn reading_twice_gives_the_same_page() {
    let mut svc = service(true);
    let c1 = svc.create_comment(POST, user(1), plain("one", None), 0).unwrap();
    svc.create_comment(POST, user(2), plain("two", Some(c1.id)), 0).unwrap();
    let first = svc.get_post_comments(POST, None, true, 10).unwrap();
    let second = svc.get_post_comments(POST, None, true, 11).unwrap();
    assert_eq!(first, second);
    // and still after the cached page has expired
    let later = svc.get_post_comments(POST, None, true, 10 + 3600).unwrap();
    assert_eq!(first, later);
}

#[test]
fn cached_page_is_served_until_it_expires() {
    let mut cache = MemoryCache::new();
    let stale = vec![];
    cache.put_page(POST, stale, 3600, 0);
    let mut store = CommentStore::new();
    store.add_user(user(1), "ann".into());
    store.add_post(POST);
    let mut svc = CommentService::new(store, Some(cache), NotificationHub::new());
    // a write to another post leaves the cached page of this one alone
    svc.store_mut().add_post(2);
    svc.create_comment(2, user(1), plain("elsewhere", None), 0).unwrap();
    assert!(svc.get_post_comments(POST, None, true, 3599).unwrap().is_empty());
    assert!(svc.get_post_comments(2, None, true, 3599).unwrap().len() == 1);
    // unless the caller does not want the cache
    assert!(svc.get_post_comments(POST, None, false, 5).unwrap().is_empty());
}

#[test]
fn written_comment_is_read_back() {
    let mut svc = service(true);
    svc.create_comment(POST, user(1), plain("older", None), 0).unwrap();
    let before = svc.get_post_comments(POST, None, true, 1).unwrap();
    assert_eq!(before.len(), 1);
    let written = svc
        .create_comment(POST, user(2), plain("a < b", None), 2)
        .unwrap();
    assert_eq!(written.content_html, "a &lt; b");
    assert_eq!(written.author.name, "user2");
    assert_eq!(written.created_at, 2);
    let page = svc.get_post_comments(POST, None, true, 3).unwrap();
    assert_eq!(page.len(), 2);
    assert_eq!(page[0], written);
    assert_eq!(page[1], before[0]);
}

#[test]
fn markdown_comment_is_wrapped() {
    let mut svc = service(true);
    let request = CreateCommentRequest {
        content: "*hi*".into(),
        parent_comment_id: None,
        markdown_enabled: true,
    };
    let written = svc.create_comment(POST, user(1), request, 0).unwrap();
    assert_eq!(written.content_html, "<div class=\"markdown\">*hi*</div>");
    let row = svc.store().find_comment(written.id).unwrap();
    assert_eq!(row.content, "*hi*");
    assert!(row.markdown_enabled);
}

#[test]
fn deleted_comment_is_gone_but_its_reply_stays_in_the_store() {
    let mut svc = service(true);
    let c1 = svc.create_comment(POST, user(1), plain("root", None), 0).unwrap();
    let c2 = svc.create_comment(POST, user(2), plain("reply", Some(c1.id)), 0).unwrap();
    let other = svc.create_comment(POST, user(3), plain("other", None), 0).unwrap();
    assert_eq!(svc.get_comment_count(POST, 1), Ok(3));
    assert_eq!(svc.get_post_comments(POST, None, true, 1).unwrap().len(), 2);

    assert_eq!(svc.delete_comment(c1.id, user(1), false, 5), Ok(c1.id));

    let page = svc.get_post_comments(POST, None, true, 6).unwrap();
    assert_eq!(page.len(), 1);
    assert_eq!(page[0].id, other.id);
    assert_eq!(page[0].replies, None);

    let row = svc.store().find_comment(c1.id).unwrap();
    assert!(row.is_deleted);
    assert_eq!(row.content, "[deleted]");
    assert_eq!(row.content_html, "<p>[deleted]</p>");
    assert_eq!(row.deleted_by, Some(user(1)));
    assert_eq!(row.deleted_at, Some(5));
    assert_eq!(row.updated_at, 5);
    assert_eq!(row.created_at, 0);

    let reply = svc.store().find_comment(c2.id).unwrap();
    assert!(!reply.is_deleted);
    assert_eq!(reply.content, "reply");
    assert_eq!(reply.parent_comment_id, Some(c1.id));
    assert_eq!(svc.get_comment_count(POST, 6), Ok(2));
    assert_eq!(svc.store().count_comments(POST), 2);
}

#[test]
fn deleted_reply_is_gone_from_its_thread() {
    let mut svc = service(true);
    let c1 = svc.create_comment(POST, user(1), plain("root", None), 0).unwrap();
    let c2 = svc.create_comment(POST, user(2), plain("first", Some(c1.id)), 0).unwrap();
    let c3 = svc.create_comment(POST, user(3), plain("second", Some(c1.id)), 0).unwrap();
    svc.delete_comment(c2.id, user(9), true, 1).unwrap();
    let page = svc.get_post_comments(POST, None, true, 2).unwrap();
    let replies = page[0].replies.as_ref().unwrap();
    assert_eq!(replies.len(), 1);
    assert_eq!(replies[0].id, c3.id);
}

#[test]
fn only_author_or_admin_may_delete() {
    let mut svc = service(true);
    let c1 = svc.create_comment(POST, user(1), plain("mine", None), 0).unwrap();
    let err = svc.delete_comment(c1.id, user(2), false, 1).unwrap_err();
    assert_eq!(err, CommentError::Unauthorized);
    assert_eq!(err.code(), "UNAUTHORIZED");
    assert!(!svc.store().find_comment(c1.id).unwrap().is_deleted);
    assert_eq!(svc.delete_comment(c1.id, user(2), true, 1), Ok(c1.id));
    assert_eq!(svc.store().find_comment(c1.id).unwrap().deleted_by, Some(user(2)));
}

#[test]
fn deleting_what_is_not_there_is_not_found() {
    let mut svc = service(true);
    let err = svc.delete_comment(77, user(1), true, 0).unwrap_err();
    assert_eq!(err, CommentError::NotFound);
    assert_eq!(err.code(), "NOT_FOUND");
    let c1 = svc.create_comment(POST, user(1), plain("once", None), 0).unwrap();
    assert_eq!(svc.delete_comment(c1.id, user(1), false, 1), Ok(c1.id));
    assert_eq!(svc.delete_comment(c1.id, user(1), false, 2), Err(CommentError::NotFound));
}

#[test]
fn comment_needs_an_open_post_and_an_existing_parent() {
    let mut svc = service(false);
    assert_eq!(
        svc.create_comment(99, user(1), plain("x", None), 0),
        Err(CommentError::PostNotFound)
    );
    svc.store_mut().retire_post(2);
    assert_eq!(
        svc.create_comment(2, user(1), plain("x", None), 0),
        Err(CommentError::PostNotFound)
    );
    assert_eq!(
        svc.create_comment(POST, user(1), plain("x", Some(12345)), 0),
        Err(CommentError::ParentCommentNotFound)
    );
    assert_eq!(svc.store().len(), 0);
}

#[test]
fn unknown_author_is_refused_by_the_store() {
    let mut svc = service(false);
    let err = svc.create_comment(POST, user(999), plain("x", None), 0).unwrap_err();
    assert_eq!(
        err,
        CommentError::DatabaseError("insert or update violates a constraint".into())
    );
    assert_eq!(err.code(), "INTERNAL_ERROR");
    assert_eq!(svc.store().len(), 0);
}

#[test]
fn reply_to_a_deleted_parent_is_still_possible() {
    let mut svc = service(false);
    let c1 = svc.create_comment(POST, user(1), plain("root", None), 0).unwrap();
    svc.delete_comment(c1.id, user(1), false, 1).unwrap();
    let c2 = svc.create_comment(POST, user(2), plain("late", Some(c1.id)), 2).unwrap();
    assert_eq!(svc.store().find_comment(c2.id).unwrap().nesting_level, 1);
    assert!(svc.get_post_comments(POST, None, true, 3).unwrap().is_empty());
    assert_eq!(svc.get_comment_count(POST, 3), Ok(1));
}

#[test]
fn roots_are_newest_first_and_replies_oldest_first() {
    let mut svc = service(false);
    let a = svc.create_comment(POST, user(1), plain("a", None), 10).unwrap();
    let b = svc.create_comment(POST, user(2), plain("b", None), 20).unwrap();
    let r1 = svc.create_comment(POST, user(3), plain("r1", Some(a.id)), 30).unwrap();
    let r2 = svc.create_comment(POST, user(4), plain("r2", Some(a.id)), 40).unwrap();
    let page = svc.get_post_comments(POST, None, true, 50).unwrap();
    assert_eq!(page.iter().map(|c| c.id).collect::<Vec<_>>(), vec![b.id, a.id]);
    let replies = page[1].replies.as_ref().unwrap();
    assert_eq!(replies.iter().map(|c| c.id).collect::<Vec<_>>(), vec![r1.id, r2.id]);
    assert_eq!(page[0].replies, None);
}

#[test]
fn pages_hold_twenty_roots_each() {
    let mut svc = service(false);
    let mut ids = Vec::new();
    for n in 1..=25u128 {
        ids.push(svc.create_comment(POST, user(n), plain("c", None), n as i64).unwrap().id);
    }
    let first = svc.get_post_comments(POST, Some(1), true, 100).unwrap();
    assert_eq!(first.len(), 20);
    assert_eq!(first[0].id, ids[24]);
    assert_eq!(first[19].id, ids[5]);
    let second = svc.get_post_comments(POST, Some(2), true, 100).unwrap();
    assert_eq!(second.len(), 5);
    assert_eq!(second[0].id, ids[4]);
    assert_eq!(second[4].id, ids[0]);
    assert!(svc.get_post_comments(POST, Some(3), true, 100).unwrap().is_empty());
    assert_eq!(svc.get_comment_count(POST, 100), Ok(25));
}

#[test]
fn page_numbers_out_of_range_are_refused() {
    let mut svc = service(true);
    let err = svc.get_post_comments(POST, Some(0), true, 0).unwrap_err();
    assert_eq!(
        err,
        CommentError::DatabaseError("LIMIT and OFFSET must not be negative".into())
    );
    assert_eq!(err.status_code(), 500);
    assert_eq!(
        svc.get_post_comments(POST, Some(i64::MAX), true, 0),
        Err(CommentError::ValidationError("Page number out of range".into()))
    );
}

#[test]
fn comments_of_other_posts_are_not_listed() {
    let mut svc = service(true);
    let here = svc.create_comment(POST, user(1), plain("here", None), 0).unwrap();
    svc.create_comment(2, user(2), plain("there", None), 0).unwrap();
    let page = svc.get_post_comments(POST, None, true, 1).unwrap();
    assert_eq!(page.len(), 1);
    assert_eq!(page[0].id, here.id);
    assert_eq!(svc.get_comment_count(POST, 1), Ok(1));
    assert_eq!(svc.get_comment_count(2, 1), Ok(1));
    assert_eq!(svc.get_comment_count(3, 1), Ok(0));
}

#[test]
fn cached_count_follows_writes_and_deletes() {
    let mut svc = service(true);
    let c1 = svc.create_comment(POST, user(1), plain("a", None), 0).unwrap();
    assert_eq!(svc.get_comment_count(POST, 1), Ok(1));
    svc.create_comment(POST, user(2), plain("b", None), 2).unwrap();
    assert_eq!(svc.get_comment_count(POST, 3), Ok(2));
    svc.delete_comment(c1.id, user(1), false, 4).unwrap();
    assert_eq!(svc.get_comment_count(POST, 5), Ok(1));
    // after the cached count has expired the store is asked again
    assert_eq!(svc.get_comment_count(POST, 1 + 3600), Ok(1));
}

#[test]
fn changes_are_recorded_in_order() {
    let mut svc = service(true);
    let c1 = svc.create_comment(POST, user(1), plain("a", None), 0).unwrap();
    let c2 = svc.create_comment(POST, user(2), plain("b", Some(c1.id)), 0).unwrap();
    svc.delete_comment(c2.id, user(2), false, 1).unwrap();
    let expected = vec![
        ChangeEvent { kind: ChangeKind::Created, post_id: POST, comment_id: c1.id, parent_id: None },
        ChangeEvent {
            kind: ChangeKind::Created,
            post_id: POST,
            comment_id: c2.id,
            parent_id: Some(c1.id),
        },
        ChangeEvent { kind: ChangeKind::Deleted, post_id: POST, comment_id: c2.id, parent_id: None },
    ];
    assert_eq!(svc.change_log(), &expected);
}

#[test]
fn ids_are_handed_out_in_order() {
    let mut svc = service(false);
    let a = svc.create_comment(POST, user(1), plain("a", None), 0).unwrap();
    let b = svc.create_comment(POST, user(1), plain("b", None), 0).unwrap();
    assert_eq!(a.id, 1);
    assert_eq!(b.id, 2);
}

#[test]
fn errors_answer_with_status_message_and_code() {
    let cases: Vec<(CommentError, u16, &str, &str)> = vec![
        (CommentError::NotFound, 404, "Comment not found", "NOT_FOUND"),
        (CommentError::PostNotFound, 404, "Post not found", "POST_NOT_FOUND"),
        (CommentError::ParentCommentNotFound, 404, "Parent comment not found", "PARENT_NOT_FOUND"),
        (CommentError::Unauthorized, 401, "Not authorized to perform this action", "UNAUTHORIZED"),
        (
            CommentError::RateLimitExceeded,
            429,
            "Rate limit exceeded, please try again later",
            "RATE_LIMITED",
        ),
        (
            CommentError::MaxNestingDepthReached,
            400,
            "Maximum nesting depth reached for comments",
            "MAX_DEPTH",
        ),
        (CommentError::ValidationError("too long".into()), 400, "Invalid input", "VALIDATION_ERROR"),
        (CommentError::InvalidComment, 400, "Invalid comment", "INVALID_COMMENT"),
        (
            CommentError::DatabaseError("connection refused".into()),
            500,
            "Internal server error",
            "INTERNAL_ERROR",
        ),
        (
            CommentError::CacheError("timeout".into()),
            500,
            "Internal server error",
            "INTERNAL_ERROR",
        ),
        (
            CommentError::DeserializationError,
            500,
            "Failed to process comment data",
            "DESERIALIZATION_ERROR",
        ),
        (CommentError::InternalError("x".into()), 500, "Internal server error", "INTERNAL_ERROR"),
    ];
    for (err, status, message, code) in cases {
        let (s, body) = comment_error_to_response(err);
        assert_eq!(s, status);
        assert_eq!(body, CommentErrorResponse { error: message.into(), code: code.into() });
    }
}

#[test]
fn error_bodies_describe_themselves() {
    assert_eq!(
        CommentErrorResponse::from_error(CommentError::ValidationError("too long".into())),
        CommentErrorResponse { error: "too long".into(), code: "VALIDATION_ERROR".into() }
    );
    assert_eq!(
        CommentErrorResponse::from_error(CommentError::RateLimitExceeded),
        CommentErrorResponse { error: "Rate limit exceeded".into(), code: "RATE_LIMITED".into() }
    );
    assert_eq!(
        CommentErrorResponse::from_error(CommentError::DatabaseError("secret".into())),
        CommentErrorResponse { error: "Internal server error".into(), code: "INTERNAL_ERROR".into() }
    );
    assert_eq!(
        CommentErrorResponse::from_error(CommentError::InternalError("broken".into())),
        CommentErrorResponse { error: "broken".into(), code: "INTERNAL_ERROR".into() }
    );
}

#[test]
fn list_body_counts_zero_when_the_count_failed() {
    let body = list_response(Vec::<CommentResponse>::new(), Ok(7));
    assert_eq!(body.total_count, 7);
    let body = list_response(Vec::new(), Err(CommentError::CacheError("down".into())));
    assert_eq!(body.total_count, 0);
    assert!(body.comments.is_empty());
}

#[test]
fn query_params_carry_the_page() {
    assert_eq!(CommentsQueryParams::new(Some(3)).page(), Some(3));
    assert_eq!(CommentsQueryParams::new(None).page(), None);
}

#[test]
fn only_admins_delete_for_others() {
    assert!(is_admin(Role::Admin));
    assert!(!is_admin(Role::User));
    assert!(!is_admin(Role::Author));
    assert!(!is_admin(Role::Analyst));
}

#[test]
fn memory_cache_entries_expire() {
    let actor = user(1);
    let mut cache = MemoryCache::new();
    assert!(!cache.contains(&CacheKey::RateLimit(actor), 0));
    cache.set_marker(actor, 100, 50);
    assert!(cache.contains(&CacheKey::RateLimit(actor), 50));
    assert!(cache.contains(&CacheKey::RateLimit(actor), 149));
    assert!(!cache.contains(&CacheKey::RateLimit(actor), 150));
    assert!(!cache.contains(&CacheKey::RateLimit(user(2)), 60));

    cache.set_count(7, 12, 3600, 0);
    assert_eq!(cache.get_count(7, 3599), Some(12));
    assert_eq!(cache.get_count(7, 3600), None);
    assert!(cache.contains(&CacheKey::CommentCount(7), 10));
    assert!(!cache.contains(&CacheKey::CommentPage(7), 10));

    cache.put_page(7, Vec::new(), 3600, 0);
    assert_eq!(cache.get_page(7, 1), Some(Vec::new()));
    assert_eq!(cache.get_page(7, 3600), None);
    cache.delete(&CacheKey::CommentPage(7));
    assert_eq!(cache.get_page(7, 1), None);
    cache.delete(&CacheKey::RateLimit(actor));
    assert!(!cache.contains(&CacheKey::RateLimit(actor), 60));
}

#[test]
fn memory_cache_counts_like_a_counter() {
    let mut cache = MemoryCache::new();
    // a count that is not there starts at the increment and never expires
    assert!(cache.increment(1, 1, 0));
    assert_eq!(cache.get_count(1, i64::MAX), Some(1));
    // a count that is there keeps its expiry
    cache.set_count(2, 10, 100, 0);
    assert!(cache.increment(2, -1, 50));
    assert_eq!(cache.get_count(2, 99), Some(9));
    assert_eq!(cache.get_count(2, 100), None);
    // a sum that does not fit changes nothing
    cache.set_count(3, i64::MAX, 100, 0);
    assert!(!cache.increment(3, 1, 1));
    assert_eq!(cache.get_count(3, 1), Some(i64::MAX));
    // a lifetime that does not fit lasts to the end of time
    cache.set_marker(user(1), i64::MAX, 10);
    assert!(cache.contains(&CacheKey::RateLimit(user(1)), i64::MAX - 1));
}

#[test]
fn rate_limiter_checks_and_sets() {
    let mut svc = service(true);
    assert!(!svc.check_rate_limit(user(1), 0));
    assert!(svc.check_rate_limit(user(1), 1));
    assert!(svc.check_rate_limit(user(1), 99));
    assert!(!svc.check_rate_limit(user(1), 100));
    // the check at 100 began a new window
    assert!(svc.check_rate_limit(user(1), 199));
    assert!(!svc.check_rate_limit(user(2), 50));
    let mut open = service(false);
    assert!(!open.check_rate_limit(user(1), 0));
    assert!(!open.check_rate_limit(user(1), 0));
}

#[test]
fn reading_order_follows_timestamps_not_writing_order() {
    let mut svc = service(false);
    // written first, but stamped later
    let late = svc.create_comment(POST, user(1), plain("late", None), 100).unwrap();
    let early = svc.create_comment(POST, user(2), plain("early", None), 50).unwrap();
    let middle = svc.create_comment(POST, user(3), plain("middle", None), 75).unwrap();
    let page = svc.get_post_comments(POST, None, true, 200).unwrap();
    assert_eq!(
        page.iter().map(|c| c.id).collect::<Vec<_>>(),
        vec![late.id, middle.id, early.id]
    );

    let r1 = svc.create_comment(POST, user(4), plain("r1", Some(late.id)), 40).unwrap();
    let r2 = svc.create_comment(POST, user(5), plain("r2", Some(late.id)), 30).unwrap();
    let r3 = svc.create_comment(POST, user(6), plain("r3", Some(late.id)), 35).unwrap();
    let page = svc.get_post_comments(POST, None, true, 200).unwrap();
    let replies = page[0].replies.as_ref().unwrap();
    assert_eq!(replies.iter().map(|c| c.id).collect::<Vec<_>>(), vec![r2.id, r3.id, r1.id]);
    assert_eq!(
        replies.iter().map(|c| c.created_at).collect::<Vec<_>>(),
        vec![30, 35, 40]
    );
}

#[test]
fn equal_timestamps_are_read_by_id() {
    let mut svc = service(false);
    let a = svc.create_comment(POST, user(1), plain("a", None), 10).unwrap();
    let b = svc.create_comment(POST, user(2), plain("b", None), 10).unwrap();
    let c = svc.create_comment(POST, user(3), plain("c", None), 5).unwrap();
    let d = svc.create_comment(POST, user(4), plain("d", None), 10).unwrap();
    let page = svc.get_post_comments(POST, None, true, 20).unwrap();
    assert_eq!(page.iter().map(|x| x.id).collect::<Vec<_>>(), vec![d.id, b.id, a.id, c.id]);
    let x = svc.create_comment(POST, user(5), plain("x", Some(a.id)), 7).unwrap();
    let y = svc.create_comment(POST, user(6), plain("y", Some(a.id)), 7).unwrap();
    let z = svc.create_comment(POST, user(7), plain("z", Some(a.id)), 6).unwrap();
    let rows = svc.store().replies(&vec![a.id]);
    assert_eq!(rows.iter().map(|r| r.comment.id).collect::<Vec<_>>(), vec![z.id, x.id, y.id]);
}

#[test]
fn pages_cut_the_timestamp_order() {
    let mut svc = service(false);
    let mut stamped = Vec::new();
    for n in 1..=25u128 {
        // timestamps run backwards while the comments are written
        let at = 1000 - n as i64;
        stamped.push((at, svc.create_comment(POST, user(n), plain("c", None), at).unwrap().id));
    }
    stamped.sort();
    stamped.reverse();
    let first = svc.get_post_comments(POST, Some(1), true, 2000).unwrap();
    let second = svc.get_post_comments(POST, Some(2), true, 2000).unwrap();
    assert_eq!(first.len(), 20);
    assert_eq!(second.len(), 5);
    let read: Vec<i64> = first.iter().chain(second.iter()).map(|c| c.id).collect();
    assert_eq!(read, stamped.iter().map(|s| s.1).collect::<Vec<_>>());
    let rows = svc.store().root_comments(POST, 3, 1).unwrap();
    assert_eq!(
        rows.iter().map(|r| r.comment.created_at).collect::<Vec<_>>(),
        vec![998, 997, 996]
    );
}
