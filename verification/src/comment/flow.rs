//! The comment operations as resumable flows. A flow names the next thing
//! it needs from the database, the cache or the notification hub as an
//! [`Effect`]; whoever runs it performs the effect and resumes the flow
//! with the [`Reply`]. The flow decides everything else: the order of the
//! steps, which failures end the request and which are passed over, and
//! the final result.

use crate::cache::facade::{
    CacheKey,
    COMMENT_COUNT_TTL_SECONDS,
    COMMENT_PAGE_TTL_SECONDS,
    COMMENT_RATE_LIMIT_SECONDS,
};
use crate::comment::model::{
    clone_responses,
    response_views,
    Comment,
    CommentAuthor,
    CommentAuthorView,
    CommentError,
    CommentErrorView,
    CommentResponse,
    CommentResponseView,
    CommentView,
    CreateCommentRequest,
    CreateCommentRequestView,
    COMMENTS_PER_PAGE,
};
use crate::comment::rules::{
    can_delete,
    child_level,
    content_verdict,
    draft,
    drafted,
    level_for,
    may_delete,
    offset_of,
    page_offset,
    show,
    shown,
    validate_content,
    ChangeEvent,
};
use crate::comment::tree::{
    assemble,
    assembled,
    expand_ids,
    level_views,
    parents_to_expand,
    REPLY_LEVELS,
};
use crate::ident::UserId;
use crate::notification::model::{reply_notice, NotificationPayload, NotificationPayloadView};
use crate::store::{row_views, CommentRow, CommentRowView, NewComment, NewCommentView};
use vstd::prelude::*;
use vstd::string::*;

verus! {

/// What a flow asks of its surroundings.
#[derive(Debug, PartialEq, Eq)]
pub enum Effect {
    /// Is there an entry under this key?
    CacheContains(CacheKey),
    /// Set the actor's rate-limit marker for `ttl` seconds.
    CacheSetMarker { actor: UserId, ttl: i64 },
    /// Read the cached page of comments of a post.
    CacheGetPage { post_id: i64 },
    /// Store the page of comments of a post for `ttl` seconds.
    CachePutPage { post_id: i64, page: Vec<CommentResponse>, ttl: i64 },
    /// Read the cached comment count of a post.
    CacheGetCount { post_id: i64 },
    /// Store the comment count of a post for `ttl` seconds.
    CacheSetCount { post_id: i64, count: i64, ttl: i64 },
    /// Remove the entry under this key.
    CacheDelete(CacheKey),
    /// Add `delta` to the cached comment count of a post.
    CacheIncrement { post_id: i64, delta: i64 },
    /// Append an entry to the change stream.
    LogChange(ChangeEvent),
    /// Publish a notification to its recipient, without waiting for it.
    Publish(NotificationPayload),
    /// Does the post exist, undeleted?
    PostExists(i64),
    /// Read the comment with this id, deleted or not.
    FindComment(i64),
    /// Read the comment with this id unless it is deleted.
    FindLiveComment(i64),
    /// Write a new comment, in one transaction.
    InsertComment(NewComment),
    /// Read the author record of a user.
    FindAuthor(UserId),
    /// Read a page of the live roots of a post, newest first: the later
    /// timestamp first, and of equal timestamps the greater id.
    RootComments { post_id: i64, limit: i64, offset: i64 },
    /// Read the live replies to any of these comments, oldest first: the
    /// earlier timestamp first, and of equal timestamps the smaller id.
    Replies(Vec<i64>),
    /// Delete a comment softly.
    SoftDelete { comment_id: i64, by: UserId, at: i64 },
    /// Count the live comments of a post.
    CountComments(i64),
}

/// The mathematical content of an [`Effect`].
pub enum EffectView {
    CacheContains(CacheKey),
    CacheSetMarker { actor: UserId, ttl: i64 },
    CacheGetPage { post_id: i64 },
    CachePutPage { post_id: i64, page: Seq<CommentResponseView>, ttl: i64 },
    CacheGetCount { post_id: i64 },
    CacheSetCount { post_id: i64, count: i64, ttl: i64 },
    CacheDelete(CacheKey),
    CacheIncrement { post_id: i64, delta: i64 },
    LogChange(ChangeEvent),
    Publish(NotificationPayloadView),
    PostExists(i64),
    FindComment(i64),
    FindLiveComment(i64),
    InsertComment(NewCommentView),
    FindAuthor(UserId),
    RootComments { post_id: i64, limit: i64, offset: i64 },
    Replies(Seq<i64>),
    SoftDelete { comment_id: i64, by: UserId, at: i64 },
    CountComments(i64),
}

impl View for Effect {
    type V = EffectView;

    open spec fn view(&self) -> EffectView {
        match self {
            Effect::CacheContains(k) => EffectView::CacheContains(*k),
            Effect::CacheSetMarker { actor, ttl } => EffectView::CacheSetMarker {
                actor: *actor,
                ttl: *ttl,
            },
            Effect::CacheGetPage { post_id } => EffectView::CacheGetPage { post_id: *post_id },
            Effect::CachePutPage { post_id, page, ttl } => EffectView::CachePutPage {
                post_id: *post_id,
                page: response_views(page@),
                ttl: *ttl,
            },
            Effect::CacheGetCount { post_id } => EffectView::CacheGetCount { post_id: *post_id },
            Effect::CacheSetCount { post_id, count, ttl } => EffectView::CacheSetCount {
                post_id: *post_id,
                count: *count,
                ttl: *ttl,
            },
            Effect::CacheDelete(k) => EffectView::CacheDelete(*k),
            Effect::CacheIncrement { post_id, delta } => EffectView::CacheIncrement {
                post_id: *post_id,
                delta: *delta,
            },
            Effect::LogChange(e) => EffectView::LogChange(*e),
            Effect::Publish(p) => EffectView::Publish(p@),
            Effect::PostExists(id) => EffectView::PostExists(*id),
            Effect::FindComment(id) => EffectView::FindComment(*id),
            Effect::FindLiveComment(id) => EffectView::FindLiveComment(*id),
            Effect::InsertComment(n) => EffectView::InsertComment(n@),
            Effect::FindAuthor(u) => EffectView::FindAuthor(*u),
            Effect::RootComments { post_id, limit, offset } => EffectView::RootComments {
                post_id: *post_id,
                limit: *limit,
                offset: *offset,
            },
            Effect::Replies(ids) => EffectView::Replies(ids@),
            Effect::SoftDelete { comment_id, by, at } => EffectView::SoftDelete {
                comment_id: *comment_id,
                by: *by,
                at: *at,
            },
            Effect::CountComments(id) => EffectView::CountComments(*id),
        }
    }
}

/// What the surroundings answer.
#[derive(Debug, PartialEq, Eq)]
pub enum Reply {
    /// Yes or no.
    Flag(bool),
    /// The effect was carried out and has nothing to report.
    Done,
    /// The cached page, if there is one that can be read.
    Page(Option<Vec<CommentResponse>>),
    /// The cached count, if there is one.
    Count(Option<i64>),
    /// The number of rows counted.
    Total(i64),
    /// The comment asked for, if there is one.
    Comment(Option<Comment>),
    /// The row that was written.
    Inserted(Comment),
    /// The author asked for, if known.
    Author(Option<CommentAuthor>),
    /// The rows read.
    Rows(Vec<CommentRow>),
    /// The cache could not do it; the message says why.
    CacheFailed(String),
    /// The database could not do it; the message says why.
    StoreFailed(String),
}

/// The mathematical content of a [`Reply`].
pub enum ReplyView {
    Flag(bool),
    Done,
    Page(Option<Seq<CommentResponseView>>),
    Count(Option<i64>),
    Total(i64),
    Comment(Option<CommentView>),
    Inserted(CommentView),
    Author(Option<CommentAuthorView>),
    Rows(Seq<CommentRowView>),
    CacheFailed(Seq<char>),
    StoreFailed(Seq<char>),
}

impl View for Reply {
    type V = ReplyView;

    open spec fn view(&self) -> ReplyView {
        match self {
            Reply::Flag(b) => ReplyView::Flag(*b),
            Reply::Done => ReplyView::Done,
            Reply::Page(p) => ReplyView::Page(
                match p {
                    Some(v) => Some(response_views(v@)),
                    None => None,
                },
            ),
            Reply::Count(c) => ReplyView::Count(*c),
            Reply::Total(n) => ReplyView::Total(*n),
            Reply::Comment(c) => ReplyView::Comment(
                match c {
                    Some(c) => Some(c@),
                    None => None,
                },
            ),
            Reply::Inserted(c) => ReplyView::Inserted(c@),
            Reply::Author(a) => ReplyView::Author(
                match a {
                    Some(a) => Some(a@),
                    None => None,
                },
            ),
            Reply::Rows(rows) => ReplyView::Rows(row_views(rows@)),
            Reply::CacheFailed(m) => ReplyView::CacheFailed(m@),
            Reply::StoreFailed(m) => ReplyView::StoreFailed(m@),
        }
    }
}

/// The error for a reply that does not answer what was asked.
pub open spec fn out_of_turn() -> CommentErrorView {
    CommentErrorView::InternalError("Unexpected reply"@)
}

/// The error for an author that the store does not know.
pub open spec fn author_missing() -> CommentErrorView {
    CommentErrorView::DatabaseError(
        "no rows returned by a query that expected to return at least one row"@,
    )
}

/// The error for a page number that leaves the number range.
pub open spec fn page_out_of_range() -> CommentErrorView {
    CommentErrorView::ValidationError("Page number out of range"@)
}

fn unexpected_reply() -> (r: CommentError)
    ensures
        r@ == out_of_turn(),
{
    CommentError::InternalError(String::from_str("Unexpected reply"))
}

/// The view of the result of writing a comment.
pub open spec fn shown_result(r: Result<CommentResponse, CommentError>) -> Result<
    CommentResponseView,
    CommentErrorView,
> {
    match r {
        Ok(c) => Ok(c@),
        Err(e) => Err(e@),
    }
}

/// The view of the result of reading a page.
pub open spec fn page_result(r: Result<Vec<CommentResponse>, CommentError>) -> Result<
    Seq<CommentResponseView>,
    CommentErrorView,
> {
    match r {
        Ok(p) => Ok(response_views(p@)),
        Err(e) => Err(e@),
    }
}

/// The view of a result that is a number.
pub open spec fn number_result(r: Result<i64, CommentError>) -> Result<i64, CommentErrorView> {
    match r {
        Ok(n) => Ok(n),
        Err(e) => Err(e@),
    }
}

// ---------------------------------------------------------------------
// Writing a comment
// ---------------------------------------------------------------------

/// Where the flow that writes a comment stands, with what it has learnt.
#[derive(Debug)]
pub enum CreateStage {
    /// Asked whether the actor's rate-limit marker is there.
    CheckingLimit,
    /// Asked to set the marker.
    SettingMarker,
    /// Asked whether the post exists.
    CheckingPost,
    /// Asked for the parent comment.
    FindingParent,
    /// Asked to write the row; `notify` is the parent's author when they
    /// are to be told of a reply.
    Writing { notify: Option<UserId> },
    /// Asked for the author's record.
    FindingAuthor { notify: Option<UserId>, written: Comment },
    /// Asked to publish the notification.
    Notifying { response: CommentResponse },
    /// Asked to drop the cached page.
    Invalidating { response: CommentResponse },
    /// Asked whether a count is cached.
    CheckingCount { response: CommentResponse },
    /// Asked to raise the cached count.
    Counting { response: CommentResponse },
    /// Asked to record the change.
    Logging { response: CommentResponse },
}

/// The mathematical content of a [`CreateStage`].
pub enum CreateStageView {
    CheckingLimit,
    SettingMarker,
    CheckingPost,
    FindingParent,
    Writing { notify: Option<UserId> },
    FindingAuthor { notify: Option<UserId>, written: CommentView },
    Notifying { response: CommentResponseView },
    Invalidating { response: CommentResponseView },
    CheckingCount { response: CommentResponseView },
    Counting { response: CommentResponseView },
    Logging { response: CommentResponseView },
}

impl View for CreateStage {
    type V = CreateStageView;

    open spec fn view(&self) -> CreateStageView {
        match self {
            CreateStage::CheckingLimit => CreateStageView::CheckingLimit,
            CreateStage::SettingMarker => CreateStageView::SettingMarker,
            CreateStage::CheckingPost => CreateStageView::CheckingPost,
            CreateStage::FindingParent => CreateStageView::FindingParent,
            CreateStage::Writing { notify } => CreateStageView::Writing { notify: *notify },
            CreateStage::FindingAuthor { notify, written } => CreateStageView::FindingAuthor {
                notify: *notify,
                written: written@,
            },
            CreateStage::Notifying { response } => CreateStageView::Notifying {
                response: response@,
            },
            CreateStage::Invalidating { response } => CreateStageView::Invalidating {
                response: response@,
            },
            CreateStage::CheckingCount { response } => CreateStageView::CheckingCount {
                response: response@,
            },
            CreateStage::Counting { response } => CreateStageView::Counting { response: response@ },
            CreateStage::Logging { response } => CreateStageView::Logging { response: response@ },
        }
    }
}

/// What a flow that writes a comment was asked to do.
#[derive(Debug)]
struct CreatePlan {
    cache_enabled: bool,
    post_id: i64,
    actor: UserId,
    request: CreateCommentRequest,
    now: i64,
}

/// The flow that writes a comment.
#[derive(Debug)]
pub struct CreateFlow {
    plan: CreatePlan,
    stage: CreateStage,
}

/// The mathematical content of a [`CreateFlow`].
pub struct CreateFlowView {
    pub cache_enabled: bool,
    pub post_id: i64,
    pub actor: UserId,
    pub request: CreateCommentRequestView,
    pub now: i64,
    pub stage: CreateStageView,
}

impl View for CreateFlow {
    type V = CreateFlowView;

    closed spec fn view(&self) -> CreateFlowView {
        CreateFlowView {
            cache_enabled: self.plan.cache_enabled,
            post_id: self.plan.post_id,
            actor: self.plan.actor,
            request: self.plan.request@,
            now: self.plan.now,
            stage: self.stage@,
        }
    }
}

/// What a flow that writes a comment does next.
#[derive(Debug)]
pub enum CreateStep {
    /// Perform the effect and resume the flow with the reply.
    Perform(CreateFlow, Effect),
    /// The request is answered.
    Finished(Result<CommentResponse, CommentError>),
}

/// The mathematical content of a [`CreateStep`].
pub enum CreateStepView {
    Perform(CreateFlowView, EffectView),
    Finished(Result<CommentResponseView, CommentErrorView>),
}

impl View for CreateStep {
    type V = CreateStepView;

    open spec fn view(&self) -> CreateStepView {
        match self {
            CreateStep::Perform(f, e) => CreateStepView::Perform(f@, e@),
            CreateStep::Finished(r) => CreateStepView::Finished(shown_result(*r)),
        }
    }
}

impl CreateFlowView {
    /// The same flow at another stage.
    pub open spec fn at(self, stage: CreateStageView) -> CreateFlowView {
        CreateFlowView { stage, ..self }
    }

    /// How many steps the flow may still take.
    pub open spec fn steps_left(self) -> nat {
        match self.stage {
            CreateStageView::CheckingLimit => 11,
            CreateStageView::SettingMarker => 10,
            CreateStageView::CheckingPost => 9,
            CreateStageView::FindingParent => 8,
            CreateStageView::Writing { .. } => 7,
            CreateStageView::FindingAuthor { .. } => 6,
            CreateStageView::Notifying { .. } => 5,
            CreateStageView::Invalidating { .. } => 4,
            CreateStageView::CheckingCount { .. } => 3,
            CreateStageView::Counting { .. } => 2,
            CreateStageView::Logging { .. } => 1,
        }
    }

    /// Asks whether the post exists.
    pub open spec fn ask_post(self) -> CreateStepView {
        CreateStepView::Perform(
            self.at(CreateStageView::CheckingPost),
            EffectView::PostExists(self.post_id),
        )
    }

    /// Asks to write the comment at the given level.
    pub open spec fn ask_write(self, level: i32, notify: Option<UserId>) -> CreateStepView {
        CreateStepView::Perform(
            self.at(CreateStageView::Writing { notify }),
            EffectView::InsertComment(
                drafted(self.post_id, self.actor, self.request, level, self.now),
            ),
        )
    }

    /// Once the row is written and shown: drops the cached page, or ends
    /// the request when there is no cache.
    pub open spec fn ask_invalidate(self, response: CommentResponseView) -> CreateStepView {
        if self.cache_enabled {
            CreateStepView::Perform(
                self.at(CreateStageView::Invalidating { response }),
                EffectView::CacheDelete(CacheKey::CommentPage(self.post_id)),
            )
        } else {
            CreateStepView::Finished(Ok(response))
        }
    }

    /// Records the change.
    pub open spec fn ask_log(self, response: CommentResponseView) -> CreateStepView {
        CreateStepView::Perform(
            self.at(CreateStageView::Logging { response }),
            EffectView::LogChange(
                ChangeEvent::created(self.post_id, response.id, self.request.parent_comment_id),
            ),
        )
    }

    /// The first step of the flow: content that is not acceptable ends the
    /// request before anything is asked; otherwise the rate limit comes
    /// first when there is a cache, the post when there is none.
    pub open spec fn begin(
        cache_enabled: bool,
        post_id: i64,
        actor: UserId,
        request: CreateCommentRequestView,
        now: i64,
    ) -> CreateStepView {
        let flow = CreateFlowView {
            cache_enabled,
            post_id,
            actor,
            request,
            now,
            stage: CreateStageView::CheckingLimit,
        };
        match content_verdict(request.content) {
            Some(message) => CreateStepView::Finished(
                Err(CommentErrorView::ValidationError(message)),
            ),
            None => if cache_enabled {
                CreateStepView::Perform(flow, EffectView::CacheContains(CacheKey::RateLimit(actor)))
            } else {
                flow.ask_post()
            },
        }
    }

    /// The step that follows a reply.
    #[verifier::opaque]
    pub open spec fn resumed(self, reply: ReplyView) -> CreateStepView {
        match self.stage {
            CreateStageView::CheckingLimit => match reply {
                ReplyView::Flag(true) => CreateStepView::Finished(
                    Err(CommentErrorView::RateLimitExceeded),
                ),
                ReplyView::Flag(false) => CreateStepView::Perform(
                    self.at(CreateStageView::SettingMarker),
                    EffectView::CacheSetMarker {
                        actor: self.actor,
                        ttl: COMMENT_RATE_LIMIT_SECONDS,
                    },
                ),
                ReplyView::CacheFailed(m) => CreateStepView::Finished(
                    Err(CommentErrorView::CacheError(m)),
                ),
                _ => CreateStepView::Finished(Err(out_of_turn())),
            },
            CreateStageView::SettingMarker => match reply {
                ReplyView::Done => self.ask_post(),
                ReplyView::CacheFailed(m) => CreateStepView::Finished(
                    Err(CommentErrorView::CacheError(m)),
                ),
                _ => CreateStepView::Finished(Err(out_of_turn())),
            },
            CreateStageView::CheckingPost => match reply {
                ReplyView::Flag(true) => match self.request.parent_comment_id {
                    Some(parent) => CreateStepView::Perform(
                        self.at(CreateStageView::FindingParent),
                        EffectView::FindComment(parent),
                    ),
                    None => self.ask_write(0, None),
                },
                ReplyView::Flag(false) => CreateStepView::Finished(
                    Err(CommentErrorView::PostNotFound),
                ),
                ReplyView::StoreFailed(m) => CreateStepView::Finished(
                    Err(CommentErrorView::DatabaseError(m)),
                ),
                _ => CreateStepView::Finished(Err(out_of_turn())),
            },
            CreateStageView::FindingParent => match reply {
                ReplyView::Comment(Some(parent)) => match level_for(Some(parent)) {
                    Ok(level) => self.ask_write(
                        level,
                        if parent.user_id != self.actor {
                            Some(parent.user_id)
                        } else {
                            None
                        },
                    ),
                    Err(e) => CreateStepView::Finished(Err(e)),
                },
                ReplyView::Comment(None) => CreateStepView::Finished(
                    Err(CommentErrorView::ParentCommentNotFound),
                ),
                ReplyView::StoreFailed(m) => CreateStepView::Finished(
                    Err(CommentErrorView::DatabaseError(m)),
                ),
                _ => CreateStepView::Finished(Err(out_of_turn())),
            },
            CreateStageView::Writing { notify } => match reply {
                ReplyView::Inserted(written) => CreateStepView::Perform(
                    self.at(CreateStageView::FindingAuthor { notify, written }),
                    EffectView::FindAuthor(self.actor),
                ),
                ReplyView::StoreFailed(m) => CreateStepView::Finished(
                    Err(CommentErrorView::DatabaseError(m)),
                ),
                _ => CreateStepView::Finished(Err(out_of_turn())),
            },
            CreateStageView::FindingAuthor { notify, written } => match reply {
                ReplyView::Author(Some(author)) => {
                    let response = shown(written, author);
                    match notify {
                        Some(recipient) => CreateStepView::Perform(
                            self.at(CreateStageView::Notifying { response }),
                            EffectView::Publish(
                                reply_notice(recipient, written.id, written.post_id, self.actor),
                            ),
                        ),
                        None => self.ask_invalidate(response),
                    }
                },
                ReplyView::Author(None) => CreateStepView::Finished(Err(author_missing())),
                ReplyView::StoreFailed(m) => CreateStepView::Finished(
                    Err(CommentErrorView::DatabaseError(m)),
                ),
                _ => CreateStepView::Finished(Err(out_of_turn())),
            },
            CreateStageView::Notifying { response } => self.ask_invalidate(response),
            CreateStageView::Invalidating { response } => CreateStepView::Perform(
                self.at(CreateStageView::CheckingCount { response }),
                EffectView::CacheContains(CacheKey::CommentCount(self.post_id)),
            ),
            CreateStageView::CheckingCount { response } => match reply {
                ReplyView::Flag(true) => CreateStepView::Perform(
                    self.at(CreateStageView::Counting { response }),
                    EffectView::CacheIncrement { post_id: self.post_id, delta: 1 },
                ),
                _ => self.ask_log(response),
            },
            CreateStageView::Counting { response } => self.ask_log(response),
            CreateStageView::Logging { response } => CreateStepView::Finished(Ok(response)),
        }
    }
}

/// How many steps may still follow a step.
pub open spec fn create_steps_left(step: CreateStepView) -> nat {
    match step {
        CreateStepView::Perform(flow, _) => flow.steps_left(),
        CreateStepView::Finished(_) => 0,
    }
}

/// Every reply brings the flow closer to its end.
pub proof fn lemma_create_progress(flow: CreateFlowView, reply: ReplyView)
    ensures
        create_steps_left(flow.resumed(reply)) < flow.steps_left(),
{
    reveal(CreateFlowView::resumed);
}

impl CreateFlow {
    /// Begins writing a comment for `actor` on the post at time `now`.
    /// `cache_enabled` says whether a cache is configured.
    pub fn start(
        cache_enabled: bool,
        post_id: i64,
        actor: UserId,
        request: CreateCommentRequest,
        now: i64,
    ) -> (r: CreateStep)
        ensures
            r@ == CreateFlowView::begin(cache_enabled, post_id, actor, request@, now),
    {
        match validate_content(request.content.as_str()) {
            Err(e) => {
                return CreateStep::Finished(Err(e));
            },
            Ok(()) => {},
        }
        let plan = CreatePlan { cache_enabled, post_id, actor, request, now };
        if cache_enabled {
            CreateStep::Perform(
                CreateFlow { plan, stage: CreateStage::CheckingLimit },
                Effect::CacheContains(CacheKey::RateLimit(actor)),
            )
        } else {
            CreateFlow::ask_post(plan)
        }
    }

    /// The view of a flow with this plan at a stage.
    closed spec fn planned(plan: CreatePlan, stage: CreateStageView) -> CreateFlowView {
        CreateFlowView {
            cache_enabled: plan.cache_enabled,
            post_id: plan.post_id,
            actor: plan.actor,
            request: plan.request@,
            now: plan.now,
            stage,
        }
    }

    fn ask_post(plan: CreatePlan) -> (r: CreateStep)
        ensures
            r@ == CreateFlow::planned(plan, CreateStageView::CheckingPost).ask_post(),
    {
        let post_id = plan.post_id;
        CreateStep::Perform(
            CreateFlow { plan, stage: CreateStage::CheckingPost },
            Effect::PostExists(post_id),
        )
    }

    fn ask_write(plan: CreatePlan, level: i32, notify: Option<UserId>) -> (r: CreateStep)
        ensures
            r@ == CreateFlow::planned(plan, CreateStageView::CheckingPost).ask_write(level, notify),
    {
        let new = draft(plan.post_id, plan.actor, &plan.request, level, plan.now);
        CreateStep::Perform(
            CreateFlow { plan, stage: CreateStage::Writing { notify } },
            Effect::InsertComment(new),
        )
    }

    fn ask_invalidate(plan: CreatePlan, response: CommentResponse) -> (r: CreateStep)
        ensures
            r@ == CreateFlow::planned(plan, CreateStageView::CheckingPost).ask_invalidate(
                response@,
            ),
    {
        if plan.cache_enabled {
            let post_id = plan.post_id;
            CreateStep::Perform(
                CreateFlow { plan, stage: CreateStage::Invalidating { response } },
                Effect::CacheDelete(CacheKey::CommentPage(post_id)),
            )
        } else {
            CreateStep::Finished(Ok(response))
        }
    }

    fn ask_log(plan: CreatePlan, response: CommentResponse) -> (r: CreateStep)
        ensures
            r@ == CreateFlow::planned(plan, CreateStageView::CheckingPost).ask_log(response@),
    {
        let event = ChangeEvent {
            kind: crate::comment::rules::ChangeKind::Created,
            post_id: plan.post_id,
            comment_id: response.id,
            parent_id: plan.request.parent_comment_id,
        };
        proof {
            response.lemma_view_of_replies();
        }
        CreateStep::Perform(
            CreateFlow { plan, stage: CreateStage::Logging { response } },
            Effect::LogChange(event),
        )
    }

    /// Resumes the flow with the reply to the effect it asked for.
    pub fn resume(self, reply: Reply) -> (r: CreateStep)
        ensures
            r@ == self@.resumed(reply@),
    {
        reveal(CreateFlowView::resumed);
        let CreateFlow { plan, stage } = self;
        match stage {
            CreateStage::CheckingLimit => match reply {
                Reply::Flag(true) => CreateStep::Finished(Err(CommentError::RateLimitExceeded)),
                Reply::Flag(false) => {
                    let actor = plan.actor;
                    CreateStep::Perform(
                        CreateFlow { plan, stage: CreateStage::SettingMarker },
                        Effect::CacheSetMarker { actor, ttl: COMMENT_RATE_LIMIT_SECONDS },
                    )
                },
                Reply::CacheFailed(m) => CreateStep::Finished(Err(CommentError::CacheError(m))),
                _ => CreateStep::Finished(Err(unexpected_reply())),
            },
            CreateStage::SettingMarker => match reply {
                Reply::Done => CreateFlow::ask_post(plan),
                Reply::CacheFailed(m) => CreateStep::Finished(Err(CommentError::CacheError(m))),
                _ => CreateStep::Finished(Err(unexpected_reply())),
            },
            CreateStage::CheckingPost => match reply {
                Reply::Flag(true) => match plan.request.parent_comment_id {
                    Some(parent) => CreateStep::Perform(
                        CreateFlow { plan, stage: CreateStage::FindingParent },
                        Effect::FindComment(parent),
                    ),
                    None => CreateFlow::ask_write(plan, 0, None),
                },
                Reply::Flag(false) => CreateStep::Finished(Err(CommentError::PostNotFound)),
                Reply::StoreFailed(m) => CreateStep::Finished(Err(CommentError::DatabaseError(m))),
                _ => CreateStep::Finished(Err(unexpected_reply())),
            },
            CreateStage::FindingParent => match reply {
                Reply::Comment(Some(parent)) => match child_level(parent.nesting_level) {
                    Ok(level) => {
                        let notify = if parent.user_id != plan.actor {
                            Some(parent.user_id)
                        } else {
                            None
                        };
                        CreateFlow::ask_write(plan, level, notify)
                    },
                    Err(e) => CreateStep::Finished(Err(e)),
                },
                Reply::Comment(None) => CreateStep::Finished(
                    Err(CommentError::ParentCommentNotFound),
                ),
                Reply::StoreFailed(m) => CreateStep::Finished(Err(CommentError::DatabaseError(m))),
                _ => CreateStep::Finished(Err(unexpected_reply())),
            },
            CreateStage::Writing { notify } => match reply {
                Reply::Inserted(written) => {
                    let actor = plan.actor;
                    CreateStep::Perform(
                        CreateFlow { plan, stage: CreateStage::FindingAuthor { notify, written } },
                        Effect::FindAuthor(actor),
                    )
                },
                Reply::StoreFailed(m) => CreateStep::Finished(Err(CommentError::DatabaseError(m))),
                _ => CreateStep::Finished(Err(unexpected_reply())),
            },
            CreateStage::FindingAuthor { notify, written } => match reply {
                Reply::Author(Some(author)) => {
                    let response = show(&written, author);
                    match notify {
                        Some(recipient) => {
                            let notice = NotificationPayload::reply(
                                recipient,
                                written.id,
                                written.post_id,
                                plan.actor,
                            );
                            CreateStep::Perform(
                                CreateFlow { plan, stage: CreateStage::Notifying { response } },
                                Effect::Publish(notice),
                            )
                        },
                        None => CreateFlow::ask_invalidate(plan, response),
                    }
                },
                Reply::Author(None) => CreateStep::Finished(
                    Err(
                        CommentError::DatabaseError(
                            String::from_str(
                                "no rows returned by a query that expected to return at least one row",
                            ),
                        ),
                    ),
                ),
                Reply::StoreFailed(m) => CreateStep::Finished(Err(CommentError::DatabaseError(m))),
                _ => CreateStep::Finished(Err(unexpected_reply())),
            },
            CreateStage::Notifying { response } => CreateFlow::ask_invalidate(plan, response),
            CreateStage::Invalidating { response } => {
                let post_id = plan.post_id;
                CreateStep::Perform(
                    CreateFlow { plan, stage: CreateStage::CheckingCount { response } },
                    Effect::CacheContains(CacheKey::CommentCount(post_id)),
                )
            },
            CreateStage::CheckingCount { response } => match reply {
                Reply::Flag(true) => {
                    let post_id = plan.post_id;
                    CreateStep::Perform(
                        CreateFlow { plan, stage: CreateStage::Counting { response } },
                        Effect::CacheIncrement { post_id, delta: 1 },
                    )
                },
                _ => CreateFlow::ask_log(plan, response),
            },
            CreateStage::Counting { response } => CreateFlow::ask_log(plan, response),
            CreateStage::Logging { response } => CreateStep::Finished(Ok(response)),
        }
    }
}

// ---------------------------------------------------------------------
// Deleting a comment
// ---------------------------------------------------------------------

/// Where the flow that deletes a comment stands. Once the comment is
/// found, the stages remember the post it belongs to.
#[derive(Clone, Copy, Debug, PartialEq, Eq, Structural)]
pub enum DeleteStage {
    /// Asked for the comment.
    Finding,
    /// Asked to delete the row.
    Deleting { post_id: i64 },
    /// Asked to drop the cached page.
    Invalidating { post_id: i64 },
    /// Asked whether a count is cached.
    CheckingCount { post_id: i64 },
    /// Asked to lower the cached count.
    Counting { post_id: i64 },
    /// Asked to record the change.
    Logging,
}

/// The flow that deletes a comment.
#[derive(Clone, Copy, Debug, PartialEq, Eq, Structural)]
pub struct DeleteFlow {
    pub cache_enabled: bool,
    pub comment_id: i64,
    pub actor: UserId,
    pub is_privileged: bool,
    pub now: i64,
    pub stage: DeleteStage,
}

/// What a flow that deletes a comment does next.
#[derive(Debug)]
pub enum DeleteStep {
    /// Perform the effect and resume the flow with the reply.
    Perform(DeleteFlow, Effect),
    /// The request is answered.
    Finished(Result<i64, CommentError>),
}

/// The mathematical content of a [`DeleteStep`].
pub enum DeleteStepView {
    Perform(DeleteFlow, EffectView),
    Finished(Result<i64, CommentErrorView>),
}

impl View for DeleteStep {
    type V = DeleteStepView;

    open spec fn view(&self) -> DeleteStepView {
        match self {
            DeleteStep::Perform(f, e) => DeleteStepView::Perform(*f, e@),
            DeleteStep::Finished(r) => DeleteStepView::Finished(number_result(*r)),
        }
    }
}

impl DeleteFlow {
    /// The same flow at another stage.
    pub open spec fn at(self, stage: DeleteStage) -> DeleteFlow {
        DeleteFlow { stage, ..self }
    }

    /// How many steps the flow may still take.
    pub open spec fn steps_left(self) -> nat {
        match self.stage {
            DeleteStage::Finding => 6,
            DeleteStage::Deleting { .. } => 5,
            DeleteStage::Invalidating { .. } => 4,
            DeleteStage::CheckingCount { .. } => 3,
            DeleteStage::Counting { .. } => 2,
            DeleteStage::Logging => 1,
        }
    }

    /// The first step: the comment is asked for.
    pub open spec fn begin(
        cache_enabled: bool,
        comment_id: i64,
        actor: UserId,
        is_privileged: bool,
        now: i64,
    ) -> DeleteStepView {
        DeleteStepView::Perform(
            DeleteFlow {
                cache_enabled,
                comment_id,
                actor,
                is_privileged,
                now,
                stage: DeleteStage::Finding,
            },
            EffectView::FindLiveComment(comment_id),
        )
    }

    /// Records the change.
    pub open spec fn ask_log(self, post_id: i64) -> DeleteStepView {
        DeleteStepView::Perform(
            self.at(DeleteStage::Logging),
            EffectView::LogChange(ChangeEvent::deleted(post_id, self.comment_id)),
        )
    }

    /// The step that follows a reply.
    #[verifier::opaque]
    pub open spec fn resumed(self, reply: ReplyView) -> DeleteStepView {
        match self.stage {
            DeleteStage::Finding => match reply {
                ReplyView::Comment(Some(c)) => if may_delete(
                    c.user_id,
                    self.actor,
                    self.is_privileged,
                ) {
                    DeleteStepView::Perform(
                        self.at(DeleteStage::Deleting { post_id: c.post_id }),
                        EffectView::SoftDelete {
                            comment_id: self.comment_id,
                            by: self.actor,
                            at: self.now,
                        },
                    )
                } else {
                    DeleteStepView::Finished(Err(CommentErrorView::Unauthorized))
                },
                ReplyView::Comment(None) => DeleteStepView::Finished(
                    Err(CommentErrorView::NotFound),
                ),
                ReplyView::StoreFailed(m) => DeleteStepView::Finished(
                    Err(CommentErrorView::DatabaseError(m)),
                ),
                _ => DeleteStepView::Finished(Err(out_of_turn())),
            },
            DeleteStage::Deleting { post_id } => match reply {
                ReplyView::Done => if self.cache_enabled {
                    DeleteStepView::Perform(
                        self.at(DeleteStage::Invalidating { post_id }),
                        EffectView::CacheDelete(CacheKey::CommentPage(post_id)),
                    )
                } else {
                    DeleteStepView::Finished(Ok(self.comment_id))
                },
                ReplyView::StoreFailed(m) => DeleteStepView::Finished(
                    Err(CommentErrorView::DatabaseError(m)),
                ),
                _ => DeleteStepView::Finished(Err(out_of_turn())),
            },
            DeleteStage::Invalidating { post_id } => DeleteStepView::Perform(
                self.at(DeleteStage::CheckingCount { post_id }),
                EffectView::CacheContains(CacheKey::CommentCount(post_id)),
            ),
            DeleteStage::CheckingCount { post_id } => match reply {
                ReplyView::Flag(true) => DeleteStepView::Perform(
                    self.at(DeleteStage::Counting { post_id }),
                    EffectView::CacheIncrement { post_id, delta: -1i64 },
                ),
                _ => self.ask_log(post_id),
            },
            DeleteStage::Counting { post_id } => self.ask_log(post_id),
            DeleteStage::Logging => DeleteStepView::Finished(Ok(self.comment_id)),
        }
    }

    /// Begins deleting a comment on behalf of `actor` at time `now`.
    pub fn start(
        cache_enabled: bool,
        comment_id: i64,
        actor: UserId,
        is_privileged: bool,
        now: i64,
    ) -> (r: DeleteStep)
        ensures
            r@ == DeleteFlow::begin(cache_enabled, comment_id, actor, is_privileged, now),
    {
        DeleteStep::Perform(
            DeleteFlow {
                cache_enabled,
                comment_id,
                actor,
                is_privileged,
                now,
                stage: DeleteStage::Finding,
            },
            Effect::FindLiveComment(comment_id),
        )
    }

    fn log_step(self, post_id: i64) -> (r: DeleteStep)
        ensures
            r@ == self.ask_log(post_id),
    {
        DeleteStep::Perform(
            DeleteFlow { stage: DeleteStage::Logging, ..self },
            Effect::LogChange(
                ChangeEvent {
                    kind: crate::comment::rules::ChangeKind::Deleted,
                    post_id,
                    comment_id: self.comment_id,
                    parent_id: None,
                },
            ),
        )
    }

    /// Resumes the flow with the reply to the effect it asked for.
    pub fn resume(self, reply: Reply) -> (r: DeleteStep)
        ensures
            r@ == self.resumed(reply@),
    {
        reveal(DeleteFlow::resumed);
        match self.stage {
            DeleteStage::Finding => match reply {
                Reply::Comment(Some(c)) => {
                    if can_delete(c.user_id, self.actor, self.is_privileged) {
                        DeleteStep::Perform(
                            DeleteFlow {
                                stage: DeleteStage::Deleting { post_id: c.post_id },
                                ..self
                            },
                            Effect::SoftDelete {
                                comment_id: self.comment_id,
                                by: self.actor,
                                at: self.now,
                            },
                        )
                    } else {
                        DeleteStep::Finished(Err(CommentError::Unauthorized))
                    }
                },
                Reply::Comment(None) => DeleteStep::Finished(Err(CommentError::NotFound)),
                Reply::StoreFailed(m) => DeleteStep::Finished(Err(CommentError::DatabaseError(m))),
                _ => DeleteStep::Finished(Err(unexpected_reply())),
            },
            DeleteStage::Deleting { post_id } => match reply {
                Reply::Done => {
                    if self.cache_enabled {
                        DeleteStep::Perform(
                            DeleteFlow { stage: DeleteStage::Invalidating { post_id }, ..self },
                            Effect::CacheDelete(CacheKey::CommentPage(post_id)),
                        )
                    } else {
                        DeleteStep::Finished(Ok(self.comment_id))
                    }
                },
                Reply::StoreFailed(m) => DeleteStep::Finished(Err(CommentError::DatabaseError(m))),
                _ => DeleteStep::Finished(Err(unexpected_reply())),
            },
            DeleteStage::Invalidating { post_id } => DeleteStep::Perform(
                DeleteFlow { stage: DeleteStage::CheckingCount { post_id }, ..self },
                Effect::CacheContains(CacheKey::CommentCount(post_id)),
            ),
            DeleteStage::CheckingCount { post_id } => match reply {
                Reply::Flag(true) => DeleteStep::Perform(
                    DeleteFlow { stage: DeleteStage::Counting { post_id }, ..self },
                    Effect::CacheIncrement { post_id, delta: -1 },
                ),
                _ => self.log_step(post_id),
            },
            DeleteStage::Counting { post_id } => self.log_step(post_id),
            DeleteStage::Logging => DeleteStep::Finished(Ok(self.comment_id)),
        }
    }
}

/// How many steps may still follow a step.
pub open spec fn delete_steps_left(step: DeleteStepView) -> nat {
    match step {
        DeleteStepView::Perform(flow, _) => flow.steps_left(),
        DeleteStepView::Finished(_) => 0,
    }
}

/// Every reply brings the flow closer to its end.
pub proof fn lemma_delete_progress(flow: DeleteFlow, reply: ReplyView)
    ensures
        delete_steps_left(flow.resumed(reply)) < flow.steps_left(),
{
    reveal(DeleteFlow::resumed);
}

// ---------------------------------------------------------------------
// Counting the comments of a post
// ---------------------------------------------------------------------

/// Where the flow that counts comments stands.
#[derive(Clone, Copy, Debug, PartialEq, Eq, Structural)]
pub enum CountStage {
    /// Asked the cache for the count.
    Reading,
    /// Asked the store to count.
    CountingRows,
    /// Asked the cache to keep the count.
    Storing { count: i64 },
}

/// The flow that counts the comments of a post.
#[derive(Clone, Copy, Debug, PartialEq, Eq, Structural)]
pub struct CountFlow {
    pub cache_enabled: bool,
    pub post_id: i64,
    pub stage: CountStage,
}

/// What a flow that counts comments does next.
#[derive(Debug)]
pub enum CountStep {
    /// Perform the effect and resume the flow with the reply.
    Perform(CountFlow, Effect),
    /// The request is answered.
    Finished(Result<i64, CommentError>),
}

/// The mathematical content of a [`CountStep`].
pub enum CountStepView {
    Perform(CountFlow, EffectView),
    Finished(Result<i64, CommentErrorView>),
}

impl View for CountStep {
    type V = CountStepView;

    open spec fn view(&self) -> CountStepView {
        match self {
            CountStep::Perform(f, e) => CountStepView::Perform(*f, e@),
            CountStep::Finished(r) => CountStepView::Finished(number_result(*r)),
        }
    }
}

impl CountFlow {
    /// The same flow at another stage.
    pub open spec fn at(self, stage: CountStage) -> CountFlow {
        CountFlow { stage, ..self }
    }

    /// How many steps the flow may still take.
    pub open spec fn steps_left(self) -> nat {
        match self.stage {
            CountStage::Reading => 3,
            CountStage::CountingRows => 2,
            CountStage::Storing { .. } => 1,
        }
    }

    /// Asks the store to count.
    pub open spec fn ask_store(self) -> CountStepView {
        CountStepView::Perform(
            self.at(CountStage::CountingRows),
            EffectView::CountComments(self.post_id),
        )
    }

    /// The first step: the cache is asked when there is one, the store
    /// otherwise.
    pub open spec fn begin(cache_enabled: bool, post_id: i64) -> CountStepView {
        let flow = CountFlow { cache_enabled, post_id, stage: CountStage::Reading };
        if cache_enabled {
            CountStepView::Perform(flow, EffectView::CacheGetCount { post_id })
        } else {
            flow.ask_store()
        }
    }

    /// The step that follows a reply.
    #[verifier::opaque]
    pub open spec fn resumed(self, reply: ReplyView) -> CountStepView {
        match self.stage {
            CountStage::Reading => match reply {
                ReplyView::Count(Some(n)) => CountStepView::Finished(Ok(n)),
                _ => self.ask_store(),
            },
            CountStage::CountingRows => match reply {
                ReplyView::Total(n) => if self.cache_enabled {
                    CountStepView::Perform(
                        self.at(CountStage::Storing { count: n }),
                        EffectView::CacheSetCount {
                            post_id: self.post_id,
                            count: n,
                            ttl: COMMENT_COUNT_TTL_SECONDS,
                        },
                    )
                } else {
                    CountStepView::Finished(Ok(n))
                },
                ReplyView::StoreFailed(m) => CountStepView::Finished(
                    Err(CommentErrorView::DatabaseError(m)),
                ),
                _ => CountStepView::Finished(Err(out_of_turn())),
            },
            CountStage::Storing { count } => CountStepView::Finished(Ok(count)),
        }
    }

    /// Begins counting the comments of a post.
    pub fn start(cache_enabled: bool, post_id: i64) -> (r: CountStep)
        ensures
            r@ == CountFlow::begin(cache_enabled, post_id),
    {
        let flow = CountFlow { cache_enabled, post_id, stage: CountStage::Reading };
        if cache_enabled {
            CountStep::Perform(flow, Effect::CacheGetCount { post_id })
        } else {
            flow.store_step()
        }
    }

    fn store_step(self) -> (r: CountStep)
        ensures
            r@ == self.ask_store(),
    {
        CountStep::Perform(
            CountFlow { stage: CountStage::CountingRows, ..self },
            Effect::CountComments(self.post_id),
        )
    }

    /// Resumes the flow with the reply to the effect it asked for.
    pub fn resume(self, reply: Reply) -> (r: CountStep)
        ensures
            r@ == self.resumed(reply@),
    {
        reveal(CountFlow::resumed);
        match self.stage {
            CountStage::Reading => match reply {
                Reply::Count(Some(n)) => CountStep::Finished(Ok(n)),
                _ => self.store_step(),
            },
            CountStage::CountingRows => match reply {
                Reply::Total(n) => {
                    if self.cache_enabled {
                        CountStep::Perform(
                            CountFlow { stage: CountStage::Storing { count: n }, ..self },
                            Effect::CacheSetCount {
                                post_id: self.post_id,
                                count: n,
                                ttl: COMMENT_COUNT_TTL_SECONDS,
                            },
                        )
                    } else {
                        CountStep::Finished(Ok(n))
                    }
                },
                Reply::StoreFailed(m) => CountStep::Finished(Err(CommentError::DatabaseError(m))),
                _ => CountStep::Finished(Err(unexpected_reply())),
            },
            CountStage::Storing { count } => CountStep::Finished(Ok(count)),
        }
    }
}

/// How many steps may still follow a step.
pub open spec fn count_steps_left(step: CountStepView) -> nat {
    match step {
        CountStepView::Perform(flow, _) => flow.steps_left(),
        CountStepView::Finished(_) => 0,
    }
}

/// Every reply brings the flow closer to its end.
pub proof fn lemma_count_progress(flow: CountFlow, reply: ReplyView)
    ensures
        count_steps_left(flow.resumed(reply)) < flow.steps_left(),
{
    reveal(CountFlow::resumed);
}

// ---------------------------------------------------------------------
// Reading a page of threads
// ---------------------------------------------------------------------

/// Where the flow that reads a page stands.
#[derive(Debug)]
pub enum ListStage {
    /// Asked the cache for the page.
    ReadingCache,
    /// Asked the store for the roots.
    ReadingRoots,
    /// Asked the store for the next level of replies; `levels` holds the
    /// levels read so far.
    ReadingReplies { roots: Vec<CommentRow>, levels: Vec<Vec<CommentRow>> },
    /// Asked the cache to keep the page.
    WritingCache { page: Vec<CommentResponse> },
}

/// The mathematical content of a [`ListStage`].
pub enum ListStageView {
    ReadingCache,
    ReadingRoots,
    ReadingReplies { roots: Seq<CommentRowView>, levels: Seq<Seq<CommentRowView>> },
    WritingCache { page: Seq<CommentResponseView> },
}

impl View for ListStage {
    type V = ListStageView;

    open spec fn view(&self) -> ListStageView {
        match self {
            ListStage::ReadingCache => ListStageView::ReadingCache,
            ListStage::ReadingRoots => ListStageView::ReadingRoots,
            ListStage::ReadingReplies { roots, levels } => ListStageView::ReadingReplies {
                roots: row_views(roots@),
                levels: level_views(levels@),
            },
            ListStage::WritingCache { page } => ListStageView::WritingCache {
                page: response_views(page@),
            },
        }
    }
}

/// What a flow that reads a page was asked to do.
#[derive(Clone, Copy, Debug)]
struct ListPlan {
    cache_enabled: bool,
    post_id: i64,
    offset: i64,
}

/// The flow that reads a page of threads.
#[derive(Debug)]
pub struct ListFlow {
    plan: ListPlan,
    stage: ListStage,
}

/// The mathematical content of a [`ListFlow`].
pub struct ListFlowView {
    pub cache_enabled: bool,
    pub post_id: i64,
    pub offset: i64,
    pub stage: ListStageView,
}

impl View for ListFlow {
    type V = ListFlowView;

    closed spec fn view(&self) -> ListFlowView {
        ListFlowView {
            cache_enabled: self.plan.cache_enabled,
            post_id: self.plan.post_id,
            offset: self.plan.offset,
            stage: self.stage@,
        }
    }
}

/// What a flow that reads a page does next.
#[derive(Debug)]
pub enum ListStep {
    /// Perform the effect and resume the flow with the reply.
    Perform(ListFlow, Effect),
    /// The request is answered.
    Finished(Result<Vec<CommentResponse>, CommentError>),
}

/// The mathematical content of a [`ListStep`].
pub enum ListStepView {
    Perform(ListFlowView, EffectView),
    Finished(Result<Seq<CommentResponseView>, CommentErrorView>),
}

impl View for ListStep {
    type V = ListStepView;

    open spec fn view(&self) -> ListStepView {
        match self {
            ListStep::Perform(f, e) => ListStepView::Perform(f@, e@),
            ListStep::Finished(r) => ListStepView::Finished(page_result(*r)),
        }
    }
}

impl ListFlowView {
    /// The same flow at another stage.
    pub open spec fn at(self, stage: ListStageView) -> ListFlowView {
        ListFlowView { stage, ..self }
    }

    /// Whether the flow is in order: it never holds more levels of replies
    /// than are materialized.
    pub open spec fn wf(self) -> bool {
        match self.stage {
            ListStageView::ReadingReplies { levels, .. } => levels.len() < REPLY_LEVELS,
            _ => true,
        }
    }

    /// How many steps the flow may still take.
    pub open spec fn steps_left(self) -> nat {
        match self.stage {
            ListStageView::ReadingCache => 6,
            ListStageView::ReadingRoots => 5,
            ListStageView::ReadingReplies { levels, .. } => if levels.len() < REPLY_LEVELS {
                (4 - levels.len()) as nat
            } else {
                1
            },
            ListStageView::WritingCache { .. } => 1,
        }
    }

    /// Asks the store for the roots of the page.
    pub open spec fn ask_roots(self) -> ListStepView {
        ListStepView::Perform(
            self.at(ListStageView::ReadingRoots),
            EffectView::RootComments {
                post_id: self.post_id,
                limit: COMMENTS_PER_PAGE,
                offset: self.offset,
            },
        )
    }

    /// With the roots and some levels of replies read: asks for the next
    /// level when there is room for one and the last level has rows to
    /// look beneath, else puts the page together.
    pub open spec fn ask_level_or_finish(
        self,
        roots: Seq<CommentRowView>,
        levels: Seq<Seq<CommentRowView>>,
    ) -> ListStepView {
        let last = if levels.len() == 0 {
            roots
        } else {
            levels.last()
        };
        if levels.len() < REPLY_LEVELS && expand_ids(last).len() > 0 {
            ListStepView::Perform(
                self.at(ListStageView::ReadingReplies { roots, levels }),
                EffectView::Replies(expand_ids(last)),
            )
        } else {
            let page = assembled(roots, levels);
            if self.cache_enabled {
                ListStepView::Perform(
                    self.at(ListStageView::WritingCache { page }),
                    EffectView::CachePutPage {
                        post_id: self.post_id,
                        page,
                        ttl: COMMENT_PAGE_TTL_SECONDS,
                    },
                )
            } else {
                ListStepView::Finished(Ok(page))
            }
        }
    }

    /// The first step: a page number that leaves the number range ends the
    /// request; otherwise the cache is asked when there is one and the
    /// caller wants it, the store otherwise.
    pub open spec fn begin(
        cache_enabled: bool,
        post_id: i64,
        page: Option<i64>,
        with_cache: bool,
    ) -> ListStepView {
        match offset_of(page) {
            None => ListStepView::Finished(Err(page_out_of_range())),
            Some(offset) => {
                let flow = ListFlowView {
                    cache_enabled,
                    post_id,
                    offset,
                    stage: ListStageView::ReadingCache,
                };
                if cache_enabled && with_cache {
                    ListStepView::Perform(flow, EffectView::CacheGetPage { post_id })
                } else {
                    flow.ask_roots()
                }
            },
        }
    }

    /// The step that follows a reply.
    #[verifier::opaque]
    pub open spec fn resumed(self, reply: ReplyView) -> ListStepView {
        match self.stage {
            ListStageView::ReadingCache => match reply {
                ReplyView::Page(Some(page)) => ListStepView::Finished(Ok(page)),
                _ => self.ask_roots(),
            },
            ListStageView::ReadingRoots => match reply {
                ReplyView::Rows(roots) => self.ask_level_or_finish(roots, Seq::empty()),
                ReplyView::StoreFailed(m) => ListStepView::Finished(
                    Err(CommentErrorView::DatabaseError(m)),
                ),
                _ => ListStepView::Finished(Err(out_of_turn())),
            },
            ListStageView::ReadingReplies { roots, levels } => match reply {
                ReplyView::Rows(rows) => self.ask_level_or_finish(roots, levels.push(rows)),
                ReplyView::StoreFailed(m) => ListStepView::Finished(
                    Err(CommentErrorView::DatabaseError(m)),
                ),
                _ => ListStepView::Finished(Err(out_of_turn())),
            },
            ListStageView::WritingCache { page } => ListStepView::Finished(Ok(page)),
        }
    }
}

/// How many steps may still follow a step.
pub open spec fn list_steps_left(step: ListStepView) -> nat {
    match step {
        ListStepView::Perform(flow, _) => flow.steps_left(),
        ListStepView::Finished(_) => 0,
    }
}

/// Whether the flow inside a step is in order.
pub open spec fn list_step_wf(step: ListStepView) -> bool {
    match step {
        ListStepView::Perform(flow, _) => flow.wf(),
        ListStepView::Finished(_) => true,
    }
}

/// Every reply brings a flow that is in order closer to its end and
/// leaves it in order.
pub proof fn lemma_list_progress(flow: ListFlowView, reply: ReplyView)
    requires
        flow.wf(),
    ensures
        list_steps_left(flow.resumed(reply)) < flow.steps_left(),
        list_step_wf(flow.resumed(reply)),
{
    reveal(ListFlowView::resumed);
}

impl ListFlow {
    /// Begins reading a page of the threads of a post. `with_cache` says
    /// whether a cached page may be served.
    pub fn start(cache_enabled: bool, post_id: i64, page: Option<i64>, with_cache: bool) -> (r:
        ListStep)
        ensures
            r@ == ListFlowView::begin(cache_enabled, post_id, page, with_cache),
            list_step_wf(r@),
    {
        match page_offset(page) {
            None => ListStep::Finished(
                Err(CommentError::ValidationError(String::from_str("Page number out of range"))),
            ),
            Some(offset) => {
                let plan = ListPlan { cache_enabled, post_id, offset };
                if cache_enabled && with_cache {
                    ListStep::Perform(
                        ListFlow { plan, stage: ListStage::ReadingCache },
                        Effect::CacheGetPage { post_id },
                    )
                } else {
                    ListFlow::roots_step(plan)
                }
            },
        }
    }

    /// The view of a flow with this plan at a stage.
    closed spec fn planned(plan: ListPlan, stage: ListStageView) -> ListFlowView {
        ListFlowView {
            cache_enabled: plan.cache_enabled,
            post_id: plan.post_id,
            offset: plan.offset,
            stage,
        }
    }

    fn roots_step(plan: ListPlan) -> (r: ListStep)
        ensures
            r@ == ListFlow::planned(plan, ListStageView::ReadingCache).ask_roots(),
    {
        ListStep::Perform(
            ListFlow { plan, stage: ListStage::ReadingRoots },
            Effect::RootComments {
                post_id: plan.post_id,
                limit: COMMENTS_PER_PAGE,
                offset: plan.offset,
            },
        )
    }

    fn level_or_finish(plan: ListPlan, roots: Vec<CommentRow>, levels: Vec<Vec<CommentRow>>) -> (r:
        ListStep)
        ensures
            r@ == ListFlow::planned(plan, ListStageView::ReadingCache).ask_level_or_finish(
                row_views(roots@),
                level_views(levels@),
            ),
    {
        let ids = if levels.len() == 0 {
            parents_to_expand(&roots)
        } else {
            assert(level_views(levels@).last() == row_views(levels@[levels@.len() - 1]@));
            parents_to_expand(&levels[levels.len() - 1])
        };
        if levels.len() < REPLY_LEVELS && ids.len() > 0 {
            ListStep::Perform(
                ListFlow { plan, stage: ListStage::ReadingReplies { roots, levels } },
                Effect::Replies(ids),
            )
        } else {
            let page = assemble(&roots, &levels, 0);
            assert(level_views(levels@).skip(0) =~= level_views(levels@));
            if plan.cache_enabled {
                let copy = clone_responses(&page);
                ListStep::Perform(
                    ListFlow { plan, stage: ListStage::WritingCache { page } },
                    Effect::CachePutPage {
                        post_id: plan.post_id,
                        page: copy,
                        ttl: COMMENT_PAGE_TTL_SECONDS,
                    },
                )
            } else {
                ListStep::Finished(Ok(page))
            }
        }
    }

    /// Resumes the flow with the reply to the effect it asked for.
    pub fn resume(self, reply: Reply) -> (r: ListStep)
        ensures
            r@ == self@.resumed(reply@),
    {
        reveal(ListFlowView::resumed);
        let ListFlow { plan, stage } = self;
        match stage {
            ListStage::ReadingCache => match reply {
                Reply::Page(Some(page)) => ListStep::Finished(Ok(page)),
                _ => ListFlow::roots_step(plan),
            },
            ListStage::ReadingRoots => match reply {
                Reply::Rows(roots) => {
                    let levels: Vec<Vec<CommentRow>> = Vec::new();
                    assert(level_views(levels@) =~= Seq::<Seq<CommentRowView>>::empty());
                    ListFlow::level_or_finish(plan, roots, levels)
                },
                Reply::StoreFailed(m) => ListStep::Finished(Err(CommentError::DatabaseError(m))),
                _ => ListStep::Finished(Err(unexpected_reply())),
            },
            ListStage::ReadingReplies { roots, levels } => match reply {
                Reply::Rows(rows) => {
                    let mut levels = levels;
                    let ghost before = levels@;
                    levels.push(rows);
                    assert(level_views(levels@) =~= level_views(before).push(row_views(rows@)));
                    ListFlow::level_or_finish(plan, roots, levels)
                },
                Reply::StoreFailed(m) => ListStep::Finished(Err(CommentError::DatabaseError(m))),
                _ => ListStep::Finished(Err(unexpected_reply())),
            },
            ListStage::WritingCache { page } => ListStep::Finished(Ok(page)),
        }
    }
}

} // verus!
