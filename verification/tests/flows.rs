use blog_backend::cache::facade::CacheKey;
use blog_backend::comment::flow::{
    CountFlow, CountStep, CreateFlow, CreateStep, DeleteFlow, DeleteStep, Effect, ListFlow,
    ListStep, Reply,
};
use blog_backend::comment::model::{
    Comment, CommentAuthor, CommentError, CommentResponse, CreateCommentRequest,
};
use blog_backend::comment::rules::{ChangeEvent, ChangeKind};
use blog_backend::comment::tree::{assemble, make_node, parents_to_expand, pick_replies};
use blog_backend::ident::UserId;
use blog_backend::notification::model::NotificationPayload;
use blog_backend::store::{CommentRow, NewComment};

fn user(n: u128) -> UserId {
    UserId { value: n }
}

fn request(content: &str, parent: Option<i64>) -> CreateCommentRequest {
    CreateCommentRequest {
        content: content.to_string(),
        parent_comment_id: parent,
        markdown_enabled: false,
    }
}

fn comment(id: i64, author: u128, parent: Option<i64>, level: i32) -> Comment {
    Comment {
        id,
        post_id: 1,
        user_id: user(author),
        parent_comment_id: parent,
        content: format!("c{}", id),
        content_html: format!("c{}", id),
        is_deleted: false,
        deleted_by: None,
        deleted_at: None,
        markdown_enabled: false,
        nesting_level: level,
        created_at: id,
        updated_at: id,
    }
}

fn row(id: i64, parent: Option<i64>, level: i32) -> CommentRow {
    CommentRow {
        comment: comment(id, 1, parent, level),
        author: CommentAuthor { id: user(1), name: "ann".into() },
    }
}

fn perform(step: CreateStep) -> (CreateFlow, Effect) {
    match step {
        CreateStep::Perform(flow, effect) => (flow, effect),
        CreateStep::Finished(r) => panic!("finished early: {:?}", r),
    }
}

fn finished(step: CreateStep) -> Result<CommentResponse, CommentError> {
    match step {
        CreateStep::Finished(r) => r,
        CreateStep::Perform(_, effect) => panic!("still asking: {:?}", effect),
    }
}

#[test]
fn create_flow_asks_in_order() {
    let actor = user(2);
    let (flow, effect) = perform(CreateFlow::start(true, 1, actor, request("hi", Some(5)), 77));
    assert_eq!(effect, Effect::CacheContains(CacheKey::RateLimit(actor)));
    let (flow, effect) = perform(flow.resume(Reply::Flag(false)));
    assert_eq!(effect, Effect::CacheSetMarker { actor, ttl: 100 });
    let (flow, effect) = perform(flow.resume(Reply::Done));
    assert_eq!(effect, Effect::PostExists(1));
    let (flow, effect) = perform(flow.resume(Reply::Flag(true)));
    assert_eq!(effect, Effect::FindComment(5));
    let (flow, effect) = perform(flow.resume(Reply::Comment(Some(comment(5, 1, None, 0)))));
    assert_eq!(
        effect,
        Effect::InsertComment(NewComment {
            post_id: 1,
            user_id: actor,
            parent_comment_id: Some(5),
            content: "hi".into(),
            content_html: "hi".into(),
            markdown_enabled: false,
            nesting_level: 1,
            created_at: 77,
        })
    );
    let written = Comment { content: "hi".into(), content_html: "hi".into(), ..comment(6, 2, Some(5), 1) };
    let (flow, effect) = perform(flow.resume(Reply::Inserted(written)));
    assert_eq!(effect, Effect::FindAuthor(actor));
    let author = CommentAuthor { id: actor, name: "bob".into() };
    let (flow, effect) = perform(flow.resume(Reply::Author(Some(author))));
    assert_eq!(effect, Effect::Publish(NotificationPayload::reply(user(1), 6, 1, actor)));
    // the publish is not waited for: whatever comes back, the flow goes on
    let (flow, effect) = perform(flow.resume(Reply::CacheFailed("no subscribers".into())));
    assert_eq!(effect, Effect::CacheDelete(CacheKey::CommentPage(1)));
    let (flow, effect) = perform(flow.resume(Reply::Done));
    assert_eq!(effect, Effect::CacheContains(CacheKey::CommentCount(1)));
    let (flow, effect) = perform(flow.resume(Reply::Flag(true)));
    assert_eq!(effect, Effect::CacheIncrement { post_id: 1, delta: 1 });
    let (flow, effect) = perform(flow.resume(Reply::Done));
    assert_eq!(
        effect,
        Effect::LogChange(ChangeEvent {
            kind: ChangeKind::Created,
            post_id: 1,
            comment_id: 6,
            parent_id: Some(5),
        })
    );
    let response = finished(flow.resume(Reply::Done)).unwrap();
    assert_eq!(response.id, 6);
    assert_eq!(response.content_html, "hi");
    assert_eq!(response.author.name, "bob");
    assert_eq!(response.parent_comment_id, Some(5));
    assert_eq!(response.replies, None);
}

#[test]
fn create_flow_without_cache_skips_limiter_and_cache() {
    let (flow, effect) = perform(CreateFlow::start(false, 1, user(1), request("hi", None), 0));
    assert_eq!(effect, Effect::PostExists(1));
    let (flow, effect) = perform(flow.resume(Reply::Flag(true)));
    assert!(matches!(effect, Effect::InsertComment(_)));
    let (flow, effect) = perform(flow.resume(Reply::Inserted(comment(1, 1, None, 0))));
    assert_eq!(effect, Effect::FindAuthor(user(1)));
    let author = CommentAuthor { id: user(1), name: "ann".into() };
    assert!(finished(flow.resume(Reply::Author(Some(author)))).is_ok());
}

#[test]
fn create_flow_refuses_bad_content_before_asking_anything() {
    let step = CreateFlow::start(true, 1, user(1), request("  ", None), 0);
    assert_eq!(
        finished(step),
        Err(CommentError::ValidationError("Comment content cannot be empty".into()))
    );
}

#[test]
fn limiter_fails_closed() {
    let (flow, _) = perform(CreateFlow::start(true, 1, user(1), request("hi", None), 0));
    assert_eq!(
        finished(flow.resume(Reply::CacheFailed("connection refused".into()))),
        Err(CommentError::CacheError("connection refused".into()))
    );
    let (flow, _) = perform(CreateFlow::start(true, 1, user(1), request("hi", None), 0));
    let (flow, _) = perform(flow.resume(Reply::Flag(false)));
    assert_eq!(
        finished(flow.resume(Reply::CacheFailed("timeout".into()))),
        Err(CommentError::CacheError("timeout".into()))
    );
    let (flow, _) = perform(CreateFlow::start(true, 1, user(1), request("hi", None), 0));
    assert_eq!(finished(flow.resume(Reply::Flag(true))), Err(CommentError::RateLimitExceeded));
}

#[test]
fn database_failures_end_the_write() {
    let (flow, _) = perform(CreateFlow::start(false, 1, user(1), request("hi", None), 0));
    assert_eq!(
        finished(flow.resume(Reply::StoreFailed("pool closed".into()))),
        Err(CommentError::DatabaseError("pool closed".into()))
    );
    let (flow, _) = perform(CreateFlow::start(false, 1, user(1), request("hi", None), 0));
    let (flow, _) = perform(flow.resume(Reply::Flag(true)));
    assert_eq!(
        finished(flow.resume(Reply::StoreFailed("deadlock".into()))),
        Err(CommentError::DatabaseError("deadlock".into()))
    );
    let (flow, _) = perform(CreateFlow::start(false, 1, user(1), request("hi", None), 0));
    let (flow, _) = perform(flow.resume(Reply::Flag(true)));
    let (flow, _) = perform(flow.resume(Reply::Inserted(comment(1, 1, None, 0))));
    assert_eq!(
        finished(flow.resume(Reply::Author(None))),
        Err(CommentError::DatabaseError(
            "no rows returned by a query that expected to return at least one row".into()
        ))
    );
}

#[test]
fn reply_out_of_turn_ends_the_flow() {
    let (flow, _) = perform(CreateFlow::start(false, 1, user(1), request("hi", None), 0));
    assert_eq!(
        finished(flow.resume(Reply::Total(3))),
        Err(CommentError::InternalError("Unexpected reply".into()))
    );
}

#[test]
fn cache_failures_after_the_write_are_passed_over() {
    let (flow, _) = perform(CreateFlow::start(true, 1, user(1), request("hi", None), 0));
    let (flow, _) = perform(flow.resume(Reply::Flag(false)));
    let (flow, _) = perform(flow.resume(Reply::Done));
    let (flow, _) = perform(flow.resume(Reply::Flag(true)));
    let (flow, _) = perform(flow.resume(Reply::Inserted(comment(1, 1, None, 0))));
    let author = CommentAuthor { id: user(1), name: "ann".into() };
    let (flow, effect) = perform(flow.resume(Reply::Author(Some(author))));
    assert_eq!(effect, Effect::CacheDelete(CacheKey::CommentPage(1)));
    let (flow, effect) = perform(flow.resume(Reply::CacheFailed("down".into())));
    assert_eq!(effect, Effect::CacheContains(CacheKey::CommentCount(1)));
    // no count, or no answer: nothing is incremented
    let (flow, effect) = perform(flow.resume(Reply::CacheFailed("down".into())));
    assert!(matches!(effect, Effect::LogChange(_)));
    assert!(finished(flow.resume(Reply::CacheFailed("down".into()))).is_ok());
}

#[test]
fn delete_flow_asks_in_order() {
    let actor = user(1);
    let step = DeleteFlow::start(true, 9, actor, false, 500);
    let (flow, effect) = match step {
        DeleteStep::Perform(f, e) => (f, e),
        DeleteStep::Finished(_) => panic!("finished early"),
    };
    assert_eq!(effect, Effect::FindLiveComment(9));
    let target = Comment { post_id: 4, ..comment(9, 1, None, 0) };
    let (flow, effect) = match flow.resume(Reply::Comment(Some(target))) {
        DeleteStep::Perform(f, e) => (f, e),
        DeleteStep::Finished(_) => panic!("finished early"),
    };
    assert_eq!(effect, Effect::SoftDelete { comment_id: 9, by: actor, at: 500 });
    let (flow, effect) = match flow.resume(Reply::Done) {
        DeleteStep::Perform(f, e) => (f, e),
        DeleteStep::Finished(_) => panic!("finished early"),
    };
    assert_eq!(effect, Effect::CacheDelete(CacheKey::CommentPage(4)));
    let (flow, effect) = match flow.resume(Reply::Done) {
        DeleteStep::Perform(f, e) => (f, e),
        DeleteStep::Finished(_) => panic!("finished early"),
    };
    assert_eq!(effect, Effect::CacheContains(CacheKey::CommentCount(4)));
    let (flow, effect) = match flow.resume(Reply::Flag(true)) {
        DeleteStep::Perform(f, e) => (f, e),
        DeleteStep::Finished(_) => panic!("finished early"),
    };
    assert_eq!(effect, Effect::CacheIncrement { post_id: 4, delta: -1 });
    let (flow, effect) = match flow.resume(Reply::Done) {
        DeleteStep::Perform(f, e) => (f, e),
        DeleteStep::Finished(_) => panic!("finished early"),
    };
    assert_eq!(
        effect,
        Effect::LogChange(ChangeEvent {
            kind: ChangeKind::Deleted,
            post_id: 4,
            comment_id: 9,
            parent_id: None,
        })
    );
    assert!(matches!(flow.resume(Reply::Done), DeleteStep::Finished(Ok(9))));
}

#[test]
fn delete_flow_refuses_strangers() {
    let flow = match DeleteFlow::start(false, 9, user(2), false, 0) {
        DeleteStep::Perform(f, _) => f,
        DeleteStep::Finished(_) => panic!("finished early"),
    };
    let step = flow.resume(Reply::Comment(Some(comment(9, 1, None, 0))));
    assert!(matches!(step, DeleteStep::Finished(Err(CommentError::Unauthorized))));
    let step = flow.resume(Reply::Comment(None));
    assert!(matches!(step, DeleteStep::Finished(Err(CommentError::NotFound))));
    let step = flow.resume(Reply::StoreFailed("gone".into()));
    assert!(matches!(step, DeleteStep::Finished(Err(CommentError::DatabaseError(_)))));
}

#[test]
fn count_flow_prefers_the_cache() {
    let flow = match CountFlow::start(true, 3) {
        CountStep::Perform(f, e) => {
            assert_eq!(e, Effect::CacheGetCount { post_id: 3 });
            f
        }
        CountStep::Finished(_) => panic!("finished early"),
    };
    assert!(matches!(flow.resume(Reply::Count(Some(12))), CountStep::Finished(Ok(12))));
    // a miss and a failure both fall through to the store
    for reply in [Reply::Count(None), Reply::CacheFailed("down".into())] {
        let flow = match flow.resume(reply) {
            CountStep::Perform(f, e) => {
                assert_eq!(e, Effect::CountComments(3));
                f
            }
            CountStep::Finished(_) => panic!("finished early"),
        };
        let flow = match flow.resume(Reply::Total(5)) {
            CountStep::Perform(f, e) => {
                assert_eq!(e, Effect::CacheSetCount { post_id: 3, count: 5, ttl: 3600 });
                f
            }
            CountStep::Finished(_) => panic!("finished early"),
        };
        assert!(matches!(
            flow.resume(Reply::CacheFailed("down".into())),
            CountStep::Finished(Ok(5))
        ));
    }
}

#[test]
fn count_flow_without_cache_asks_the_store_only() {
    let flow = match CountFlow::start(false, 3) {
        CountStep::Perform(f, e) => {
            assert_eq!(e, Effect::CountComments(3));
            f
        }
        CountStep::Finished(_) => panic!("finished early"),
    };
    assert!(matches!(flow.resume(Reply::Total(5)), CountStep::Finished(Ok(5))));
    assert!(matches!(
        flow.resume(Reply::StoreFailed("x".into())),
        CountStep::Finished(Err(CommentError::DatabaseError(_)))
    ));
}

fn list_perform(step: ListStep) -> (ListFlow, Effect) {
    match step {
        ListStep::Perform(flow, effect) => (flow, effect),
        ListStep::Finished(r) => panic!("finished early: {:?}", r),
    }
}

fn list_finished(step: ListStep) -> Result<Vec<CommentResponse>, CommentError> {
    match step {
        ListStep::Finished(r) => r,
        ListStep::Perform(_, effect) => panic!("still asking: {:?}", effect),
    }
}

#[test]
fn list_flow_reads_level_by_level() {
    let (flow, effect) = list_perform(ListFlow::start(true, 1, Some(2), true));
    assert_eq!(effect, Effect::CacheGetPage { post_id: 1 });
    // a page that cannot be read counts as a miss
    let (flow, effect) = list_perform(flow.resume(Reply::Page(None)));
    assert_eq!(effect, Effect::RootComments { post_id: 1, limit: 20, offset: 20 });
    let roots = vec![row(10, None, 0), row(11, None, 0)];
    let (flow, effect) = list_perform(flow.resume(Reply::Rows(roots)));
    assert_eq!(effect, Effect::Replies(vec![10, 11]));
    let level1 = vec![row(12, Some(10), 1), row(13, Some(11), 1), row(14, Some(10), 1)];
    let (flow, effect) = list_perform(flow.resume(Reply::Rows(level1)));
    assert_eq!(effect, Effect::Replies(vec![12, 13, 14]));
    let level2 = vec![row(15, Some(14), 2)];
    let (flow, effect) = list_perform(flow.resume(Reply::Rows(level2)));
    assert_eq!(effect, Effect::Replies(vec![15]));
    let level3 = vec![row(16, Some(15), 3), row(17, Some(15), 3)];
    // after three levels of replies nothing more is asked of the store
    let (flow, effect) = list_perform(flow.resume(Reply::Rows(level3)));
    let page = match effect {
        Effect::CachePutPage { post_id: 1, page, ttl: 3600 } => page,
        other => panic!("unexpected effect: {:?}", other),
    };
    let result = list_finished(flow.resume(Reply::CacheFailed("full".into()))).unwrap();
    assert_eq!(result, page);

    assert_eq!(result.len(), 2);
    assert_eq!(result[0].id, 10);
    assert_eq!(result[1].id, 11);
    let under10 = result[0].replies.as_ref().unwrap();
    assert_eq!(under10.iter().map(|c| c.id).collect::<Vec<_>>(), vec![12, 14]);
    assert_eq!(under10[0].replies, None);
    let under14 = under10[1].replies.as_ref().unwrap();
    assert_eq!(under14.iter().map(|c| c.id).collect::<Vec<_>>(), vec![15]);
    let under15 = under14[0].replies.as_ref().unwrap();
    assert_eq!(under15.iter().map(|c| c.id).collect::<Vec<_>>(), vec![16, 17]);
    assert_eq!(under15[0].replies, None);
    let under11 = result[1].replies.as_ref().unwrap();
    assert_eq!(under11.iter().map(|c| c.id).collect::<Vec<_>>(), vec![13]);
}

#[test]
fn list_flow_serves_a_cached_page() {
    let (flow, _) = list_perform(ListFlow::start(true, 1, None, true));
    let cached = vec![make_node(&row(1, None, 0), Vec::new())];
    let expected = vec![make_node(&row(1, None, 0), Vec::new())];
    assert_eq!(list_finished(flow.resume(Reply::Page(Some(cached)))), Ok(expected));
}

#[test]
fn list_flow_falls_through_a_failing_cache() {
    let (flow, _) = list_perform(ListFlow::start(true, 1, None, true));
    let (_, effect) = list_perform(flow.resume(Reply::CacheFailed("down".into())));
    assert_eq!(effect, Effect::RootComments { post_id: 1, limit: 20, offset: 0 });
    // without the cache, or when the caller does not want it, the store comes first
    let (_, effect) = list_perform(ListFlow::start(true, 1, None, false));
    assert_eq!(effect, Effect::RootComments { post_id: 1, limit: 20, offset: 0 });
    let (flow, effect) = list_perform(ListFlow::start(false, 1, None, true));
    assert_eq!(effect, Effect::RootComments { post_id: 1, limit: 20, offset: 0 });
    // no roots: nothing to look beneath, nothing to cache without a cache
    assert_eq!(list_finished(flow.resume(Reply::Rows(Vec::new()))), Ok(Vec::new()));
}

#[test]
fn list_flow_never_returns_part_of_a_page() {
    let (flow, _) = list_perform(ListFlow::start(false, 1, None, true));
    let (flow, _) = list_perform(flow.resume(Reply::Rows(vec![row(1, None, 0)])));
    assert_eq!(
        list_finished(flow.resume(Reply::StoreFailed("lost connection".into()))),
        Err(CommentError::DatabaseError("lost connection".into()))
    );
    let (flow, _) = list_perform(ListFlow::start(false, 1, None, true));
    assert_eq!(
        list_finished(flow.resume(Reply::StoreFailed("lost connection".into()))),
        Err(CommentError::DatabaseError("lost connection".into()))
    );
}

#[test]
fn rows_at_the_deepest_level_are_not_looked_beneath() {
    let rows = vec![row(1, None, 0), row(2, Some(1), 3), row(3, Some(1), 2)];
    assert_eq!(parents_to_expand(&rows), vec![1, 3]);
    assert_eq!(parents_to_expand(&vec![row(2, Some(1), 3)]), Vec::<i64>::new());
    let (flow, _) = list_perform(ListFlow::start(false, 1, None, true));
    let deep = vec![row(2, None, 3)];
    let page = list_finished(flow.resume(Reply::Rows(deep))).unwrap();
    assert_eq!(page.len(), 1);
    assert_eq!(page[0].replies, None);
}

#[test]
fn forest_is_put_together_from_levels() {
    let roots = vec![row(1, None, 0)];
    let levels = vec![vec![row(2, Some(1), 1), row(3, Some(9), 1)], vec![row(4, Some(2), 2)]];
    let forest = assemble(&roots, &levels, 0);
    assert_eq!(forest.len(), 1);
    let kids = forest[0].replies.as_ref().unwrap();
    assert_eq!(kids.len(), 1);
    assert_eq!(kids[0].id, 2);
    assert_eq!(kids[0].replies.as_ref().unwrap()[0].id, 4);
    assert_eq!(pick_replies(&levels[0], 9).len(), 1);
    assert_eq!(pick_replies(&levels[0], 7).len(), 0);
    // a node without replies shows no list at all
    let leaf = make_node(&row(5, None, 0), Vec::new());
    assert_eq!(leaf.replies, None);
    assert_eq!(leaf.author.name, "ann");
    assert_eq!(leaf.created_at, 5);
}
