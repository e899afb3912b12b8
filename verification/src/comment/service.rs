//! The comment service over in-memory collaborators: a store, an optional
//! cache, the notification hub and the change stream. Each operation runs
//! its flow to the end, answering every effect from what the service
//! holds; what comes of it is stated outright, without reference to the
//! flow.

use crate::cache::facade::{
    CacheKey,
    COMMENT_COUNT_TTL_SECONDS,
    COMMENT_PAGE_TTL_SECONDS,
    COMMENT_RATE_LIMIT_SECONDS,
};
use crate::cache::memory::{CacheView, MemoryCache};
use crate::comment::flow::{
    count_steps_left,
    create_steps_left,
    delete_steps_left,
    lemma_count_progress,
    lemma_create_progress,
    lemma_delete_progress,
    lemma_list_progress,
    list_step_wf,
    list_steps_left,
    number_result,
    out_of_turn,
    page_out_of_range,
    page_result,
    shown_result,
    CountFlow,
    CountStep,
    CountStepView,
    CreateFlow,
    CreateFlowView,
    CreateStep,
    CreateStepView,
    DeleteFlow,
    DeleteStep,
    DeleteStepView,
    Effect,
    EffectView,
    ListFlow,
    ListFlowView,
    ListStep,
    ListStepView,
    Reply,
    ReplyView,
};
use crate::comment::model::{
    CommentError,
    CommentErrorView,
    CommentResponse,
    CommentResponseView,
    CreateCommentRequest,
    CreateCommentRequestView,
    COMMENTS_PER_PAGE,
};
use crate::comment::rules::{
    content_verdict,
    drafted,
    level_for,
    may_delete,
    notifies,
    offset_of,
    shown,
    ChangeEvent,
};
use crate::comment::tree::{
    expand_ids,
    forest,
    lemma_assembled_is_threads,
    levels_beneath,
    REPLY_LEVELS,
};
use crate::ident::UserId;
use crate::notification::hub::{HubView, NotificationHub};
use crate::notification::model::reply_notice;
use crate::store::{CommentRowView, CommentStore, StoreView};
use vstd::prelude::*;
use vstd::string::*;

verus! {

/// Everything the service holds, as a mathematical value.
pub struct BackendView {
    pub store: StoreView,
    /// The cache, when one is configured.
    pub cache: Option<CacheView>,
    pub hub: HubView,
    /// The change stream, oldest entry first.
    pub log: Seq<ChangeEvent>,
}

/// The message of a cache effect that meets no cache.
pub open spec fn no_cache() -> Seq<char> {
    "Cache is not configured"@
}

/// The message of a count that would leave the number range.
pub open spec fn count_overflow() -> Seq<char> {
    "increment or decrement would overflow"@
}

/// The message of a write that the store refuses.
pub open spec fn write_refused() -> Seq<char> {
    "insert or update violates a constraint"@
}

/// The message of a read with a negative limit or offset.
pub open spec fn bad_range() -> Seq<char> {
    "LIMIT and OFFSET must not be negative"@
}

/// The cache after a write to a post's comments: the cached page is gone,
/// and a count that is cached has moved by `delta`, unless the sum does
/// not fit, in which case it stays.
pub open spec fn refreshed(cache: CacheView, post_id: i64, delta: i64, now: i64) -> CacheView {
    let dropped = cache.without(CacheKey::CommentPage(post_id));
    if dropped.count(post_id, now) is Some && dropped.can_add(post_id, delta, now) {
        dropped.added(post_id, delta, now)
    } else {
        dropped
    }
}

impl BackendView {
    /// Store and hub keep their own house in order.
    pub open spec fn sound(self) -> bool {
        self.store.wf() && self.hub.wf()
    }

    /// No cached page is higher than the number of reply levels that are
    /// materialized.
    pub open spec fn pages_bounded(self) -> bool {
        self.cache is Some ==> forall|post_id: i64| #[trigger]
            self.cache->0.pages.contains_key(post_id) ==> crate::comment::model::forest_height(
                self.cache->0.pages[post_id].0,
            ) <= REPLY_LEVELS
    }

    /// The service is in order: store and hub are, every comment sits at
    /// the level its parent gives it, and no cached page is too high.
    pub open spec fn wf(self) -> bool {
        self.sound() && self.store.levels_consistent() && self.pages_bounded()
    }

    /// What the collaborators answer to an effect at `now`, and what they
    /// hold afterwards.
    #[verifier::opaque]
    pub open spec fn answer(self, effect: EffectView, now: i64) -> (BackendView, ReplyView) {
        match effect {
            EffectView::CacheContains(key) => match self.cache {
                Some(c) => (self, ReplyView::Flag(c.holds(key, now))),
                None => (self, ReplyView::CacheFailed(no_cache())),
            },
            EffectView::CacheSetMarker { actor, ttl } => match self.cache {
                Some(c) => (
                    BackendView { cache: Some(c.with_marker(actor, ttl, now)), ..self },
                    ReplyView::Done,
                ),
                None => (self, ReplyView::CacheFailed(no_cache())),
            },
            EffectView::CacheGetPage { post_id } => match self.cache {
                Some(c) => (self, ReplyView::Page(c.page(post_id, now))),
                None => (self, ReplyView::CacheFailed(no_cache())),
            },
            EffectView::CachePutPage { post_id, page, ttl } => match self.cache {
                Some(c) => (
                    BackendView { cache: Some(c.with_page(post_id, page, ttl, now)), ..self },
                    ReplyView::Done,
                ),
                None => (self, ReplyView::CacheFailed(no_cache())),
            },
            EffectView::CacheGetCount { post_id } => match self.cache {
                Some(c) => (self, ReplyView::Count(c.count(post_id, now))),
                None => (self, ReplyView::CacheFailed(no_cache())),
            },
            EffectView::CacheSetCount { post_id, count, ttl } => match self.cache {
                Some(c) => (
                    BackendView { cache: Some(c.with_count(post_id, count, ttl, now)), ..self },
                    ReplyView::Done,
                ),
                None => (self, ReplyView::CacheFailed(no_cache())),
            },
            EffectView::CacheDelete(key) => match self.cache {
                Some(c) => (BackendView { cache: Some(c.without(key)), ..self }, ReplyView::Done),
                None => (self, ReplyView::CacheFailed(no_cache())),
            },
            EffectView::CacheIncrement { post_id, delta } => match self.cache {
                Some(c) => if c.can_add(post_id, delta, now) {
                    (
                        BackendView { cache: Some(c.added(post_id, delta, now)), ..self },
                        ReplyView::Done,
                    )
                } else {
                    (self, ReplyView::CacheFailed(count_overflow()))
                },
                None => (self, ReplyView::CacheFailed(no_cache())),
            },
            EffectView::LogChange(event) => (
                BackendView { log: self.log.push(event), ..self },
                ReplyView::Done,
            ),
            EffectView::Publish(event) => (
                BackendView { hub: self.hub.published(event), ..self },
                ReplyView::Done,
            ),
            EffectView::PostExists(post_id) => (
                self,
                ReplyView::Flag(self.store.post_open(post_id)),
            ),
            EffectView::FindComment(id) => (self, ReplyView::Comment(self.store.lookup(id))),
            EffectView::FindLiveComment(id) => (
                self,
                ReplyView::Comment(self.store.lookup_live(id)),
            ),
            EffectView::InsertComment(new) => if self.store.accepts(new) {
                (
                    BackendView { store: self.store.with_comment(new), ..self },
                    ReplyView::Inserted(self.store.fresh_row(new)),
                )
            } else {
                (self, ReplyView::StoreFailed(write_refused()))
            },
            EffectView::FindAuthor(user_id) => (self, ReplyView::Author(self.store.author(user_id))),
            EffectView::RootComments { post_id, limit, offset } => match self.store.root_page(
                post_id,
                limit,
                offset,
            ) {
                Some(rows) => (self, ReplyView::Rows(rows)),
                None => (self, ReplyView::StoreFailed(bad_range())),
            },
            EffectView::Replies(parents) => (
                self,
                ReplyView::Rows(self.store.replies_to_any(parents)),
            ),
            EffectView::SoftDelete { comment_id, by, at } => (
                BackendView { store: self.store.with_deleted(comment_id, by, at), ..self },
                ReplyView::Done,
            ),
            EffectView::CountComments(post_id) => (
                self,
                ReplyView::Total(self.store.live_count(post_id) as i64),
            ),
        }
    }

    /// Whether the actor is within the cooldown at `now`. Without a cache
    /// nobody ever is.
    pub open spec fn limited(self, actor: UserId, now: i64) -> bool {
        self.cache is Some && self.cache->0.marker_live(actor, now)
    }

    /// The service after the actor's cooldown began at `now`.
    pub open spec fn marked(self, actor: UserId, now: i64) -> BackendView {
        match self.cache {
            Some(c) => BackendView {
                cache: Some(c.with_marker(actor, COMMENT_RATE_LIMIT_SECONDS, now)),
                ..self
            },
            None => self,
        }
    }

    /// The service after a write to a post's comments was made known: the
    /// cache is refreshed and the change is in the stream. Without a cache
    /// there is neither.
    pub open spec fn announced(self, post_id: i64, delta: i64, event: ChangeEvent, now: i64) -> BackendView {
        match self.cache {
            Some(c) => BackendView {
                cache: Some(refreshed(c, post_id, delta, now)),
                log: self.log.push(event),
                ..self
            },
            None => self,
        }
    }

    /// What comes of writing a row that has been drafted at `level`, and
    /// what the service holds afterwards. A row that the store refuses ends
    /// the request. Once the row is written, `notify`, if anyone, is told of
    /// the reply, the cached page of the post is dropped, a cached count is
    /// raised, and the change is recorded.
    pub open spec fn write_outcome(
        self,
        post_id: i64,
        actor: UserId,
        request: CreateCommentRequestView,
        level: i32,
        notify: Option<UserId>,
        now: i64,
    ) -> (BackendView, Result<CommentResponseView, CommentErrorView>) {
        let new = drafted(post_id, actor, request, level, now);
        if !self.store.accepts(new) {
            (self, Err(CommentErrorView::DatabaseError(write_refused())))
        } else {
            let row = self.store.fresh_row(new);
            let told = match notify {
                Some(recipient) => self.hub.published(
                    reply_notice(recipient, row.id, post_id, actor),
                ),
                None => self.hub,
            };
            let written = BackendView { store: self.store.with_comment(new), hub: told, ..self };
            (
                written.announced(
                    post_id,
                    1,
                    ChangeEvent::created(post_id, row.id, request.parent_comment_id),
                    now,
                ),
                Ok(shown(row, self.store.author(actor)->0)),
            )
        }
    }

    /// What comes of writing a comment once content and rate limit are
    /// passed: the post must be open, and the parent, if one is named, must
    /// exist and leave room beneath it. The new comment sits at level 0
    /// without a parent and one level below its parent otherwise, and the
    /// parent's author is told unless the reply is their own.
    pub open spec fn place_outcome(
        self,
        post_id: i64,
        actor: UserId,
        request: CreateCommentRequestView,
        now: i64,
    ) -> (BackendView, Result<CommentResponseView, CommentErrorView>) {
        let parent = match request.parent_comment_id {
            Some(p) => self.store.lookup(p),
            None => None,
        };
        if !self.store.post_open(post_id) {
            (self, Err(CommentErrorView::PostNotFound))
        } else if request.parent_comment_id is Some && parent is None {
            (self, Err(CommentErrorView::ParentCommentNotFound))
        } else if level_for(parent) is Err {
            (self, Err(level_for(parent)->Err_0))
        } else {
            self.write_outcome(
                post_id,
                actor,
                request,
                level_for(parent)->Ok_0,
                if notifies(parent, actor) {
                    Some(parent->0.user_id)
                } else {
                    None
                },
                now,
            )
        }
    }

    /// What writing a comment comes to, and what the service holds
    /// afterwards.
    ///
    /// Content that is not acceptable is refused and nothing is touched. An
    /// actor within the cooldown is refused; any other actor's cooldown
    /// begins, whatever happens next. What happens next is
    /// [`BackendView::place_outcome`].
    pub open spec fn create_outcome(
        self,
        post_id: i64,
        actor: UserId,
        request: CreateCommentRequestView,
        now: i64,
    ) -> (BackendView, Result<CommentResponseView, CommentErrorView>) {
        if content_verdict(request.content) is Some {
            (self, Err(CommentErrorView::ValidationError(content_verdict(request.content)->0)))
        } else if self.limited(actor, now) {
            (self, Err(CommentErrorView::RateLimitExceeded))
        } else {
            self.marked(actor, now).place_outcome(post_id, actor, request, now)
        }
    }

    /// What deleting a comment comes to, and what the service holds
    /// afterwards.
    pub open spec fn delete_outcome(
        self,
        comment_id: i64,
        actor: UserId,
        is_privileged: bool,
        now: i64,
    ) -> (BackendView, Result<i64, CommentErrorView>) {
        match self.store.lookup_live(comment_id) {
            None => (self, Err(CommentErrorView::NotFound)),
            Some(c) => if !may_delete(c.user_id, actor, is_privileged) {
                (self, Err(CommentErrorView::Unauthorized))
            } else {
                let deleted = BackendView {
                    store: self.store.with_deleted(comment_id, actor, now),
                    ..self
                };
                (
                    deleted.announced(
                        c.post_id,
                        -1i64,
                        ChangeEvent::deleted(c.post_id, comment_id),
                        now,
                    ),
                    Ok(comment_id),
                )
            },
        }
    }

    /// What counting the comments of a post comes to: the cached count
    /// when there is one, else the store's count, which is then cached.
    pub open spec fn count_outcome(self, post_id: i64, now: i64) -> (
        BackendView,
        Result<i64, CommentErrorView>,
    ) {
        if self.cache is Some && self.cache->0.count(post_id, now) is Some {
            (self, Ok(self.cache->0.count(post_id, now)->0))
        } else {
            let n = self.store.live_count(post_id) as i64;
            (
                match self.cache {
                    Some(c) => BackendView {
                        cache: Some(c.with_count(post_id, n, COMMENT_COUNT_TTL_SECONDS, now)),
                        ..self
                    },
                    None => self,
                },
                Ok(n),
            )
        }
    }

    /// Whether a read of the post's page at `now` is served from the
    /// cache.
    pub open spec fn serves_cached(self, post_id: i64, with_cache: bool, now: i64) -> bool {
        self.cache is Some && with_cache && self.cache->0.page(post_id, now) is Some
    }

    /// A page that was read from the store: it is handed out and cached.
    pub open spec fn page_outcome(self, post_id: i64, threads: Seq<CommentResponseView>, now: i64) -> (
        BackendView,
        Result<Seq<CommentResponseView>, CommentErrorView>,
    ) {
        (
            match self.cache {
                Some(c) => BackendView {
                    cache: Some(c.with_page(post_id, threads, COMMENT_PAGE_TTL_SECONDS, now)),
                    ..self
                },
                None => self,
            },
            Ok(threads),
        )
    }

    /// What reading a page of threads comes to: the cached page when one
    /// may be served, else the threads as the store holds them, which are
    /// then cached.
    pub open spec fn list_outcome(self, post_id: i64, page: Option<i64>, with_cache: bool, now: i64) -> (
        BackendView,
        Result<Seq<CommentResponseView>, CommentErrorView>,
    ) {
        match offset_of(page) {
            None => (self, Err(page_out_of_range())),
            Some(offset) => if self.serves_cached(post_id, with_cache, now) {
                (self, Ok(self.cache->0.page(post_id, now)->0))
            } else {
                match forest(self.store, post_id, COMMENTS_PER_PAGE, offset) {
                    None => (self, Err(CommentErrorView::DatabaseError(bad_range()))),
                    Some(threads) => self.page_outcome(post_id, threads, now),
                }
            },
        }
    }

    /// What is left of writing a comment from a step on.
    pub open spec fn create_rest(self, step: CreateStepView, now: i64) -> (
        BackendView,
        Result<CommentResponseView, CommentErrorView>,
    )
        decreases create_steps_left(step),
    {
        match step {
            CreateStepView::Finished(r) => (self, r),
            CreateStepView::Perform(flow, effect) => {
                let answered = self.answer(effect, now);
                let next = flow.resumed(answered.1);
                if create_steps_left(next) < create_steps_left(step) {
                    answered.0.create_rest(next, now)
                } else {
                    (self, Err(out_of_turn()))
                }
            },
        }
    }

    /// What is left of deleting a comment from a step on.
    pub open spec fn delete_rest(self, step: DeleteStepView, now: i64) -> (
        BackendView,
        Result<i64, CommentErrorView>,
    )
        decreases delete_steps_left(step),
    {
        match step {
            DeleteStepView::Finished(r) => (self, r),
            DeleteStepView::Perform(flow, effect) => {
                let answered = self.answer(effect, now);
                let next = flow.resumed(answered.1);
                if delete_steps_left(next) < delete_steps_left(step) {
                    answered.0.delete_rest(next, now)
                } else {
                    (self, Err(out_of_turn()))
                }
            },
        }
    }

    /// What is left of counting comments from a step on.
    pub open spec fn count_rest(self, step: CountStepView, now: i64) -> (
        BackendView,
        Result<i64, CommentErrorView>,
    )
        decreases count_steps_left(step),
    {
        match step {
            CountStepView::Finished(r) => (self, r),
            CountStepView::Perform(flow, effect) => {
                let answered = self.answer(effect, now);
                let next = flow.resumed(answered.1);
                if count_steps_left(next) < count_steps_left(step) {
                    answered.0.count_rest(next, now)
                } else {
                    (self, Err(out_of_turn()))
                }
            },
        }
    }

    /// What is left of reading a page from a step on.
    pub open spec fn list_rest(self, step: ListStepView, now: i64) -> (
        BackendView,
        Result<Seq<CommentResponseView>, CommentErrorView>,
    )
        decreases list_steps_left(step),
    {
        match step {
            ListStepView::Finished(r) => (self, r),
            ListStepView::Perform(flow, effect) => {
                let answered = self.answer(effect, now);
                let next = flow.resumed(answered.1);
                if list_steps_left(next) < list_steps_left(step) {
                    answered.0.list_rest(next, now)
                } else {
                    (self, Err(out_of_turn()))
                }
            },
        }
    }
}

/// The comment service with its collaborators in memory.
pub struct CommentService {
    store: CommentStore,
    cache: Option<MemoryCache>,
    hub: NotificationHub,
    log: Vec<ChangeEvent>,
}

impl View for CommentService {
    type V = BackendView;

    closed spec fn view(&self) -> BackendView {
        BackendView {
            store: self.store@,
            cache: match self.cache {
                Some(c) => Some(c@),
                None => None,
            },
            hub: self.hub@,
            log: self.log@,
        }
    }
}

impl CommentService {
    /// A service over the given collaborators. Without a cache nothing is
    /// cached and nobody is rate-limited.
    pub fn new(store: CommentStore, cache: Option<MemoryCache>, hub: NotificationHub) -> (r: Self)
        ensures
            r@.store == store@,
            r@.cache == (match cache {
                Some(c) => Some(c@),
                None => None,
            }),
            r@.hub == hub@,
            r@.log == Seq::<ChangeEvent>::empty(),
    {
        CommentService { store, cache, hub, log: Vec::new() }
    }

    /// The store, to look at.
    pub fn store(&self) -> (r: &CommentStore)
        ensures
            r@ == self@.store,
    {
        &self.store
    }

    /// The store, to set up users and posts.
    pub fn store_mut(&mut self) -> (r: &mut CommentStore)
        ensures
            r@ == old(self)@.store,
            final(self)@ == (BackendView { store: final(r)@, ..old(self)@ }),
    {
        &mut self.store
    }

    /// The hub, to subscribe and to take what was delivered.
    pub fn hub_mut(&mut self) -> (r: &mut NotificationHub)
        ensures
            r@ == old(self)@.hub,
            final(self)@ == (BackendView { hub: final(r)@, ..old(self)@ }),
    {
        &mut self.hub
    }

    /// The change stream, oldest entry first.
    pub fn change_log(&self) -> (r: &Vec<ChangeEvent>)
        ensures
            r@ == self@.log,
    {
        &self.log
    }

    /// Whether a cache is configured.
    pub fn has_cache(&self) -> (r: bool)
        ensures
            r == self@.cache is Some,
    {
        self.cache.is_some()
    }

    /// The rate limiter: says whether `user_id` is within the cooldown at
    /// `now`, and begins the cooldown if not. Within the cooldown nothing
    /// changes, so that attempts do not extend it.
    pub fn check_rate_limit(&mut self, user_id: UserId, now: i64) -> (r: bool)
        ensures
            r == old(self)@.limited(user_id, now),
            final(self)@ == if r {
                old(self)@
            } else {
                old(self)@.marked(user_id, now)
            },
    {
        match &mut self.cache {
            Some(c) => {
                if c.contains(&CacheKey::RateLimit(user_id), now) {
                    true
                } else {
                    c.set_marker(user_id, COMMENT_RATE_LIMIT_SECONDS, now);
                    false
                }
            },
            None => false,
        }
    }

    /// Carries out one effect at `now` and hands back the reply.
    pub fn perform(&mut self, effect: Effect, now: i64) -> (r: Reply)
        requires
            old(self)@.sound(),
        ensures
            final(self)@.sound(),
            (final(self)@, r@) == old(self)@.answer(effect@, now),
    {
        reveal(BackendView::answer);
        match effect {
            Effect::CacheContains(key) => match &self.cache {
                Some(c) => Reply::Flag(c.contains(&key, now)),
                None => Reply::CacheFailed(String::from_str("Cache is not configured")),
            },
            Effect::CacheSetMarker { actor, ttl } => match &mut self.cache {
                Some(c) => {
                    c.set_marker(actor, ttl, now);
                    Reply::Done
                },
                None => Reply::CacheFailed(String::from_str("Cache is not configured")),
            },
            Effect::CacheGetPage { post_id } => match &self.cache {
                Some(c) => Reply::Page(c.get_page(post_id, now)),
                None => Reply::CacheFailed(String::from_str("Cache is not configured")),
            },
            Effect::CachePutPage { post_id, page, ttl } => match &mut self.cache {
                Some(c) => {
                    c.put_page(post_id, page, ttl, now);
                    Reply::Done
                },
                None => Reply::CacheFailed(String::from_str("Cache is not configured")),
            },
            Effect::CacheGetCount { post_id } => match &self.cache {
                Some(c) => Reply::Count(c.get_count(post_id, now)),
                None => Reply::CacheFailed(String::from_str("Cache is not configured")),
            },
            Effect::CacheSetCount { post_id, count, ttl } => match &mut self.cache {
                Some(c) => {
                    c.set_count(post_id, count, ttl, now);
                    Reply::Done
                },
                None => Reply::CacheFailed(String::from_str("Cache is not configured")),
            },
            Effect::CacheDelete(key) => match &mut self.cache {
                Some(c) => {
                    c.delete(&key);
                    Reply::Done
                },
                None => Reply::CacheFailed(String::from_str("Cache is not configured")),
            },
            Effect::CacheIncrement { post_id, delta } => match &mut self.cache {
                Some(c) => {
                    if c.increment(post_id, delta, now) {
                        Reply::Done
                    } else {
                        Reply::CacheFailed(
                            String::from_str("increment or decrement would overflow"),
                        )
                    }
                },
                None => Reply::CacheFailed(String::from_str("Cache is not configured")),
            },
            Effect::LogChange(event) => {
                self.log.push(event);
                Reply::Done
            },
            Effect::Publish(event) => {
                self.hub.publish(&event);
                Reply::Done
            },
            Effect::PostExists(post_id) => Reply::Flag(self.store.post_exists(post_id)),
            Effect::FindComment(id) => Reply::Comment(self.store.find_comment(id)),
            Effect::FindLiveComment(id) => Reply::Comment(self.store.find_live_comment(id)),
            Effect::InsertComment(new) => match self.store.insert_comment(new) {
                Some(row) => Reply::Inserted(row),
                None => Reply::StoreFailed(
                    String::from_str("insert or update violates a constraint"),
                ),
            },
            Effect::FindAuthor(user_id) => Reply::Author(self.store.find_author(user_id)),
            Effect::RootComments { post_id, limit, offset } => match self.store.root_comments(
                post_id,
                limit,
                offset,
            ) {
                Some(rows) => Reply::Rows(rows),
                None => Reply::StoreFailed(
                    String::from_str("LIMIT and OFFSET must not be negative"),
                ),
            },
            Effect::Replies(parents) => Reply::Rows(self.store.replies(&parents)),
            Effect::SoftDelete { comment_id, by, at } => {
                self.store.soft_delete(comment_id, by, at);
                Reply::Done
            },
            Effect::CountComments(post_id) => Reply::Total(self.store.count_comments(post_id)),
        }
    }
}

/// Counting comments by its flow comes to what [`BackendView::count_outcome`]
/// says.
pub proof fn lemma_count_run(w: BackendView, post_id: i64, now: i64)
    ensures
        w.count_rest(CountFlow::begin(w.cache is Some, post_id), now) == w.count_outcome(
            post_id,
            now,
        ),
{
    reveal_with_fuel(BackendView::count_rest, 4);
    reveal(BackendView::answer);
    reveal(CountFlow::resumed);
}

/// Deleting a comment by its flow comes to what
/// [`BackendView::delete_outcome`] says.
pub proof fn lemma_delete_run(
    w: BackendView,
    comment_id: i64,
    actor: UserId,
    is_privileged: bool,
    now: i64,
)
    ensures
        w.delete_rest(
            DeleteFlow::begin(w.cache is Some, comment_id, actor, is_privileged, now),
            now,
        ) == w.delete_outcome(comment_id, actor, is_privileged, now),
{
    reveal_with_fuel(BackendView::delete_rest, 7);
    reveal(BackendView::answer);
    reveal(DeleteFlow::resumed);
}

/// From dropping the cached page on, writing a comment comes to the
/// response, with the write made known.
proof fn lemma_create_tail(w: BackendView, flow: CreateFlowView, response: CommentResponseView, now: i64)
    requires
        flow.cache_enabled == (w.cache is Some),
    ensures
        w.create_rest(flow.ask_invalidate(response), now) == (
            w.announced(
                flow.post_id,
                1,
                ChangeEvent::created(flow.post_id, response.id, flow.request.parent_comment_id),
                now,
            ),
            Ok::<CommentResponseView, CommentErrorView>(response),
        ),
{
    reveal_with_fuel(BackendView::create_rest, 6);
    reveal(BackendView::answer);
    reveal(CreateFlowView::resumed);
}

/// From writing the row on, writing a comment comes to what
/// [`BackendView::write_outcome`] says.
proof fn lemma_create_write(
    w: BackendView,
    flow: CreateFlowView,
    level: i32,
    notify: Option<UserId>,
    now: i64,
)
    requires
        flow.cache_enabled == (w.cache is Some),
        flow.now == now,
    ensures
        w.create_rest(flow.ask_write(level, notify), now) == w.write_outcome(
            flow.post_id,
            flow.actor,
            flow.request,
            level,
            notify,
            now,
        ),
{
    let new = drafted(flow.post_id, flow.actor, flow.request, level, now);
    if w.store.accepts(new) {
        let row = w.store.fresh_row(new);
        let author = w.store.author(flow.actor)->0;
        let response = shown(row, author);
        let stored = BackendView { store: w.store.with_comment(new), ..w };
        let told = match notify {
            Some(recipient) => BackendView {
                hub: w.hub.published(reply_notice(recipient, row.id, flow.post_id, flow.actor)),
                ..stored
            },
            None => stored,
        };
        lemma_create_tail(told, flow, response, now);
        assert(w.create_rest(flow.ask_write(level, notify), now) == told.create_rest(
            flow.ask_invalidate(response),
            now,
        )) by {
            reveal_with_fuel(BackendView::create_rest, 4);
            reveal(BackendView::answer);
            reveal(CreateFlowView::resumed);
        }
    } else {
        reveal_with_fuel(BackendView::create_rest, 2);
        reveal(BackendView::answer);
        reveal(CreateFlowView::resumed);
    }
}

/// From the check of the post on, writing a comment comes to what
/// [`BackendView::place_outcome`] says.
proof fn lemma_create_place(w: BackendView, flow: CreateFlowView, now: i64)
    requires
        flow.cache_enabled == (w.cache is Some),
        flow.now == now,
    ensures
        w.create_rest(flow.ask_post(), now) == w.place_outcome(
            flow.post_id,
            flow.actor,
            flow.request,
            now,
        ),
{
    let parent = match flow.request.parent_comment_id {
        Some(p) => w.store.lookup(p),
        None => None,
    };
    if w.store.post_open(flow.post_id) && !(flow.request.parent_comment_id is Some && parent
        is None) && level_for(parent) is Ok {
        let level = level_for(parent)->Ok_0;
        let notify = if notifies(parent, flow.actor) {
            Some(parent->0.user_id)
        } else {
            None
        };
        lemma_create_write(w, flow, level, notify, now);
        assert(w.create_rest(flow.ask_post(), now) == w.create_rest(
            flow.ask_write(level, notify),
            now,
        )) by {
            reveal_with_fuel(BackendView::create_rest, 3);
            reveal(BackendView::answer);
            reveal(CreateFlowView::resumed);
        }
    } else {
        reveal_with_fuel(BackendView::create_rest, 3);
        reveal(BackendView::answer);
        reveal(CreateFlowView::resumed);
    }
}

/// Writing a comment by its flow comes to what
/// [`BackendView::create_outcome`] says.
pub proof fn lemma_create_run(
    w: BackendView,
    post_id: i64,
    actor: UserId,
    request: CreateCommentRequestView,
    now: i64,
)
    ensures
        w.create_rest(CreateFlowView::begin(w.cache is Some, post_id, actor, request, now), now)
            == w.create_outcome(post_id, actor, request, now),
{
    let flow = CreateFlowView {
        cache_enabled: w.cache is Some,
        post_id,
        actor,
        request,
        now,
        stage: crate::comment::flow::CreateStageView::CheckingLimit,
    };
    if content_verdict(request.content) is None && !w.limited(actor, now) {
        let marked = w.marked(actor, now);
        lemma_create_place(marked, flow, now);
        assert(w.create_rest(CreateFlowView::begin(w.cache is Some, post_id, actor, request, now), now)
            == marked.create_rest(flow.ask_post(), now)) by {
            reveal_with_fuel(BackendView::create_rest, 3);
            reveal(BackendView::answer);
            reveal(CreateFlowView::resumed);
        }
    } else {
        reveal_with_fuel(BackendView::create_rest, 3);
        reveal(BackendView::answer);
        reveal(CreateFlowView::resumed);
    }
}

/// The level looked beneath next: the last level read, or the roots when
/// none was read yet.
pub open spec fn deepest(roots: Seq<CommentRowView>, levels: Seq<Seq<CommentRowView>>) -> Seq<
    CommentRowView,
> {
    if levels.len() == 0 {
        roots
    } else {
        levels.last()
    }
}

/// From any number of levels read on, reading a page comes to the forest
/// put together from those levels and the ones still to be fetched.
proof fn lemma_list_levels(
    w: BackendView,
    flow: ListFlowView,
    roots: Seq<CommentRowView>,
    levels: Seq<Seq<CommentRowView>>,
    now: i64,
)
    requires
        flow.cache_enabled == (w.cache is Some),
        levels.len() <= REPLY_LEVELS,
    ensures
        w.list_rest(flow.ask_level_or_finish(roots, levels), now) == w.page_outcome(
            flow.post_id,
            crate::comment::tree::assembled(
                roots,
                levels + levels_beneath(
                    w.store,
                    deepest(roots, levels),
                    (REPLY_LEVELS - levels.len()) as nat,
                ),
            ),
            now,
        ),
    decreases REPLY_LEVELS - levels.len(),
{
    let last = deepest(roots, levels);
    let budget = (REPLY_LEVELS - levels.len()) as nat;
    if levels.len() < REPLY_LEVELS && expand_ids(last).len() > 0 {
        let level = w.store.replies_to_any(expand_ids(last));
        let more = levels.push(level);
        lemma_list_levels(w, flow, roots, more, now);
        assert(deepest(roots, more) == level);
        assert(levels + levels_beneath(w.store, last, budget) =~= more + levels_beneath(
            w.store,
            level,
            (budget - 1) as nat,
        ));
        assert(w.list_rest(flow.ask_level_or_finish(roots, levels), now) == w.list_rest(
            flow.ask_level_or_finish(roots, more),
            now,
        )) by {
            reveal_with_fuel(BackendView::list_rest, 2);
            reveal(BackendView::answer);
            reveal(ListFlowView::resumed);
        }
    } else {
        assert(levels + levels_beneath(w.store, last, budget) =~= levels);
        reveal_with_fuel(BackendView::list_rest, 3);
        reveal(BackendView::answer);
        reveal(ListFlowView::resumed);
    }
}

/// Reading a page by its flow comes to what [`BackendView::list_outcome`]
/// says.
pub proof fn lemma_list_run(
    w: BackendView,
    post_id: i64,
    page: Option<i64>,
    with_cache: bool,
    now: i64,
)
    ensures
        w.list_rest(ListFlowView::begin(w.cache is Some, post_id, page, with_cache), now)
            == w.list_outcome(post_id, page, with_cache, now),
{
    if offset_of(page) is Some && !w.serves_cached(post_id, with_cache, now)
        && w.store.root_page(post_id, COMMENTS_PER_PAGE, offset_of(page)->0) is Some {
        let offset = offset_of(page)->0;
        let roots = w.store.root_page(post_id, COMMENTS_PER_PAGE, offset)->0;
        let none = Seq::<Seq<CommentRowView>>::empty();
        let flow = ListFlowView {
            cache_enabled: w.cache is Some,
            post_id,
            offset,
            stage: crate::comment::flow::ListStageView::ReadingCache,
        };
        lemma_list_levels(w, flow, roots, none, now);
        lemma_assembled_is_threads(w.store, roots, roots, REPLY_LEVELS as nat);
        assert(none + levels_beneath(w.store, roots, REPLY_LEVELS as nat) =~= levels_beneath(
            w.store,
            roots,
            REPLY_LEVELS as nat,
        ));
        assert(w.list_rest(ListFlowView::begin(w.cache is Some, post_id, page, with_cache), now)
            == w.list_rest(flow.ask_level_or_finish(roots, none), now)) by {
            reveal_with_fuel(BackendView::list_rest, 3);
            reveal(BackendView::answer);
            reveal(ListFlowView::resumed);
        }
    } else {
        reveal_with_fuel(BackendView::list_rest, 3);
        reveal(BackendView::answer);
        reveal(ListFlowView::resumed);
    }
}

/// Writing a comment leaves the service in order.
pub proof fn lemma_create_keeps_wf(
    w: BackendView,
    post_id: i64,
    actor: UserId,
    request: CreateCommentRequestView,
    now: i64,
)
    requires
        w.wf(),
    ensures
        w.create_outcome(post_id, actor, request, now).0.wf(),
{
    let marked = w.marked(actor, now);
    let parent = match request.parent_comment_id {
        Some(p) => w.store.lookup(p),
        None => None,
    };
    if level_for(parent) is Ok {
        let new = drafted(post_id, actor, request, level_for(parent)->Ok_0, now);
        if w.store.accepts(new) {
            w.store.lemma_with_comment_wf(new);
            if !(request.parent_comment_id is Some && parent is None) {
                w.store.lemma_with_comment_levels(new);
            }
            if notifies(parent, actor) {
                let row = w.store.fresh_row(new);
                w.hub.lemma_published_wf(reply_notice(parent->0.user_id, row.id, post_id, actor));
            }
        }
    }
}

/// Reading a page leaves the service in order.
pub proof fn lemma_list_keeps_wf(
    w: BackendView,
    post_id: i64,
    page: Option<i64>,
    with_cache: bool,
    now: i64,
)
    requires
        w.wf(),
    ensures
        w.list_outcome(post_id, page, with_cache, now).0.wf(),
{
    if offset_of(page) is Some {
        let offset = offset_of(page)->0;
        if w.store.root_page(post_id, COMMENTS_PER_PAGE, offset) is Some {
            crate::comment::tree::lemma_threads_height(
                w.store,
                w.store.root_page(post_id, COMMENTS_PER_PAGE, offset)->0,
                REPLY_LEVELS as nat,
            );
        }
    }
}

/// Counting comments leaves the service in order.
pub proof fn lemma_count_keeps_wf(w: BackendView, post_id: i64, now: i64)
    requires
        w.wf(),
    ensures
        w.count_outcome(post_id, now).0.wf(),
{
}

/// Deleting a comment leaves the service in order.
pub proof fn lemma_delete_keeps_wf(
    w: BackendView,
    comment_id: i64,
    actor: UserId,
    is_privileged: bool,
    now: i64,
)
    requires
        w.wf(),
    ensures
        w.delete_outcome(comment_id, actor, is_privileged, now).0.wf(),
{
    w.store.lemma_with_deleted_wf(comment_id, actor, now);
}

impl CommentService {
    /// Writes a comment for `user_id` on a post at time `now` (seconds
    /// since the epoch) and hands back how it is shown.
    pub fn create_comment(
        &mut self,
        post_id: i64,
        user_id: UserId,
        comment_data: CreateCommentRequest,
        now: i64,
    ) -> (r: Result<CommentResponse, CommentError>)
        requires
            old(self)@.wf(),
        ensures
            final(self)@.wf(),
            (final(self)@, shown_result(r)) == old(self)@.create_outcome(
                post_id,
                user_id,
                comment_data@,
                now,
            ),
    {
        let ghost request = comment_data@;
        let ghost goal = self@.create_outcome(post_id, user_id, request, now);
        proof {
            lemma_create_run(self@, post_id, user_id, comment_data@, now);
            lemma_create_keeps_wf(self@, post_id, user_id, comment_data@, now);
        }
        let mut step = CreateFlow::start(self.cache.is_some(), post_id, user_id, comment_data, now);
        loop
            invariant
                self@.sound(),
                goal.0.wf(),
                request == comment_data@,
                goal == old(self)@.create_outcome(post_id, user_id, request, now),
                self@.create_rest(step@, now) == goal,
            decreases create_steps_left(step@),
        {
            match step {
                CreateStep::Finished(r) => {
                    return r;
                },
                CreateStep::Perform(flow, effect) => {
                    proof {
                        lemma_create_progress(flow@, self@.answer(effect@, now).1);
                        assert(step@ == CreateStepView::Perform(flow@, effect@));
                    }
                    let reply = self.perform(effect, now);
                    step = flow.resume(reply);
                },
            }
        }
    }

    /// Reads a page of the threads of a post at time `now`. Pages start at
    /// 1; without a page number the first is meant. `with_cache` says
    /// whether a cached page may be served.
    pub fn get_post_comments(
        &mut self,
        post_id: i64,
        page: Option<i64>,
        with_cache: bool,
        now: i64,
    ) -> (r: Result<Vec<CommentResponse>, CommentError>)
        requires
            old(self)@.wf(),
        ensures
            final(self)@.wf(),
            (final(self)@, page_result(r)) == old(self)@.list_outcome(
                post_id,
                page,
                with_cache,
                now,
            ),
    {
        let ghost goal = self@.list_outcome(post_id, page, with_cache, now);
        proof {
            lemma_list_run(self@, post_id, page, with_cache, now);
            lemma_list_keeps_wf(self@, post_id, page, with_cache, now);
        }
        let mut step = ListFlow::start(self.cache.is_some(), post_id, page, with_cache);
        loop
            invariant
                self@.sound(),
                goal.0.wf(),
                list_step_wf(step@),
                goal == old(self)@.list_outcome(post_id, page, with_cache, now),
                self@.list_rest(step@, now) == goal,
            decreases list_steps_left(step@),
        {
            match step {
                ListStep::Finished(r) => {
                    return r;
                },
                ListStep::Perform(flow, effect) => {
                    proof {
                        lemma_list_progress(flow@, self@.answer(effect@, now).1);
                        assert(step@ == ListStepView::Perform(flow@, effect@));
                    }
                    let reply = self.perform(effect, now);
                    step = flow.resume(reply);
                },
            }
        }
    }

    /// Deletes a comment softly at time `now`, on behalf of `user_id`, who
    /// must be its author unless `is_admin` holds. Hands back the id.
    pub fn delete_comment(&mut self, comment_id: i64, user_id: UserId, is_admin: bool, now: i64) -> (r:
        Result<i64, CommentError>)
        requires
            old(self)@.wf(),
        ensures
            final(self)@.wf(),
            (final(self)@, number_result(r)) == old(self)@.delete_outcome(
                comment_id,
                user_id,
                is_admin,
                now,
            ),
    {
        let ghost goal = self@.delete_outcome(comment_id, user_id, is_admin, now);
        proof {
            lemma_delete_run(self@, comment_id, user_id, is_admin, now);
            lemma_delete_keeps_wf(self@, comment_id, user_id, is_admin, now);
        }
        let mut step = DeleteFlow::start(self.cache.is_some(), comment_id, user_id, is_admin, now);
        loop
            invariant
                self@.sound(),
                goal.0.wf(),
                goal == old(self)@.delete_outcome(comment_id, user_id, is_admin, now),
                self@.delete_rest(step@, now) == goal,
            decreases delete_steps_left(step@),
        {
            match step {
                DeleteStep::Finished(r) => {
                    return r;
                },
                DeleteStep::Perform(flow, effect) => {
                    proof {
                        lemma_delete_progress(flow, self@.answer(effect@, now).1);
                        assert(step@ == DeleteStepView::Perform(flow, effect@));
                    }
                    let reply = self.perform(effect, now);
                    step = flow.resume(reply);
                },
            }
        }
    }

    /// Counts the live comments of a post at time `now`, replies included.
    pub fn get_comment_count(&mut self, post_id: i64, now: i64) -> (r: Result<i64, CommentError>)
        requires
            old(self)@.wf(),
        ensures
            final(self)@.wf(),
            (final(self)@, number_result(r)) == old(self)@.count_outcome(post_id, now),
    {
        let ghost goal = self@.count_outcome(post_id, now);
        proof {
            lemma_count_run(self@, post_id, now);
            lemma_count_keeps_wf(self@, post_id, now);
        }
        let mut step = CountFlow::start(self.cache.is_some(), post_id);
        loop
            invariant
                self@.sound(),
                goal.0.wf(),
                goal == old(self)@.count_outcome(post_id, now),
                self@.count_rest(step@, now) == goal,
            decreases count_steps_left(step@),
        {
            match step {
                CountStep::Finished(r) => {
                    return r;
                },
                CountStep::Perform(flow, effect) => {
                    proof {
                        lemma_count_progress(flow, self@.answer(effect@, now).1);
                        assert(step@ == CountStepView::Perform(flow, effect@));
                    }
                    let reply = self.perform(effect, now);
                    step = flow.resume(reply);
                },
            }
        }
    }
}

} // verus!
