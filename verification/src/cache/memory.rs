//! An in-memory cache with expiring entries. It holds what the comment
//! operations keep in a cache (assembled pages, comment counts, rate-limit
//! markers) and answers as a shared key-value cache would. Time is a
//! number of seconds handed in by the caller.

use crate::cache::facade::CacheKey;
use crate::comment::model::{
    clone_responses,
    response_views,
    CommentResponse,
    CommentResponseView,
};
use crate::ident::UserId;
use std::collections::HashMap;
use vstd::prelude::*;

verus! {

/// A cached page of comments with the moment it expires.
pub struct PageSlot {
    pub page: Vec<CommentResponse>,
    pub expires_at: i64,
}

/// A cached count with the moment it expires, if it ever does.
#[derive(Clone, Copy)]
pub struct CountSlot {
    pub count: i64,
    pub expires_at: Option<i64>,
}

/// The cache as a mathematical value.
pub struct CacheView {
    /// The cached page of each post, with its expiry.
    pub pages: Map<i64, (Seq<CommentResponseView>, i64)>,
    /// The cached count of each post, with its expiry if it has one.
    pub counts: Map<i64, (i64, Option<i64>)>,
    /// The expiry of each actor's rate-limit marker.
    pub markers: Map<u128, i64>,
}

/// The moment an entry written at `now` with a lifetime of `ttl` seconds
/// expires. The sum stops at the ends of the number range.
pub open spec fn deadline(now: i64, ttl: i64) -> i64 {
    if now + ttl > i64::MAX {
        i64::MAX
    } else if now + ttl < i64::MIN {
        i64::MIN
    } else {
        (now + ttl) as i64
    }
}

/// Whether an entry that expires at `expires_at` is still there at `now`.
pub open spec fn live(expires_at: i64, now: i64) -> bool {
    now < expires_at
}

impl CacheView {
    /// The cache with nothing in it.
    pub open spec fn empty() -> CacheView {
        CacheView { pages: Map::empty(), counts: Map::empty(), markers: Map::empty() }
    }

    /// Whether the actor's rate-limit marker is there at `now`.
    pub open spec fn marker_live(self, actor: UserId, now: i64) -> bool {
        self.markers.contains_key(actor.value) && live(self.markers[actor.value], now)
    }

    /// The cached page of a post at `now`.
    pub open spec fn page(self, post_id: i64, now: i64) -> Option<Seq<CommentResponseView>> {
        if self.pages.contains_key(post_id) && live(self.pages[post_id].1, now) {
            Some(self.pages[post_id].0)
        } else {
            None
        }
    }

    /// The cached count of a post at `now`.
    pub open spec fn count(self, post_id: i64, now: i64) -> Option<i64> {
        if self.counts.contains_key(post_id) && (self.counts[post_id].1 is None || live(
            self.counts[post_id].1->0,
            now,
        )) {
            Some(self.counts[post_id].0)
        } else {
            None
        }
    }

    /// Whether there is an entry under the key at `now`.
    pub open spec fn holds(self, key: CacheKey, now: i64) -> bool {
        match key {
            CacheKey::CommentPage(post_id) => self.page(post_id, now) is Some,
            CacheKey::CommentCount(post_id) => self.count(post_id, now) is Some,
            CacheKey::RateLimit(actor) => self.marker_live(actor, now),
        }
    }

    /// The cache without the entry under the key.
    pub open spec fn without(self, key: CacheKey) -> CacheView {
        match key {
            CacheKey::CommentPage(post_id) => CacheView {
                pages: self.pages.remove(post_id),
                ..self
            },
            CacheKey::CommentCount(post_id) => CacheView {
                counts: self.counts.remove(post_id),
                ..self
            },
            CacheKey::RateLimit(actor) => CacheView {
                markers: self.markers.remove(actor.value),
                ..self
            },
        }
    }

    /// The cache with the actor's marker set at `now` for `ttl` seconds.
    pub open spec fn with_marker(self, actor: UserId, ttl: i64, now: i64) -> CacheView {
        CacheView { markers: self.markers.insert(actor.value, deadline(now, ttl)), ..self }
    }

    /// The cache with a page stored at `now` for `ttl` seconds.
    pub open spec fn with_page(
        self,
        post_id: i64,
        page: Seq<CommentResponseView>,
        ttl: i64,
        now: i64,
    ) -> CacheView {
        CacheView { pages: self.pages.insert(post_id, (page, deadline(now, ttl))), ..self }
    }

    /// The cache with a count stored at `now` for `ttl` seconds.
    pub open spec fn with_count(self, post_id: i64, count: i64, ttl: i64, now: i64) -> CacheView {
        CacheView {
            counts: self.counts.insert(post_id, (count, Some(deadline(now, ttl)))),
            ..self
        }
    }

    /// Whether adding `delta` to the count of a post can be done at `now`:
    /// the sum must fit.
    pub open spec fn can_add(self, post_id: i64, delta: i64, now: i64) -> bool {
        match self.count(post_id, now) {
            Some(c) => i64::MIN <= c + delta <= i64::MAX,
            None => true,
        }
    }

    /// The cache after `delta` was added to the count of a post at `now`.
    /// A count that is there keeps its expiry; one that is not starts at
    /// `delta` and never expires.
    pub open spec fn added(self, post_id: i64, delta: i64, now: i64) -> CacheView {
        match self.count(post_id, now) {
            Some(c) => CacheView {
                counts: self.counts.insert(
                    post_id,
                    ((c + delta) as i64, self.counts[post_id].1),
                ),
                ..self
            },
            None => CacheView { counts: self.counts.insert(post_id, (delta, None)), ..self },
        }
    }
}

/// The in-memory cache.
pub struct MemoryCache {
    pages: HashMap<i64, PageSlot>,
    counts: HashMap<i64, CountSlot>,
    markers: HashMap<u128, i64>,
}

impl View for MemoryCache {
    type V = CacheView;

    closed spec fn view(&self) -> CacheView {
        CacheView {
            pages: self.pages@.map_values(|s: PageSlot| (response_views(s.page@), s.expires_at)),
            counts: self.counts@.map_values(|s: CountSlot| (s.count, s.expires_at)),
            markers: self.markers@,
        }
    }
}

/// Computes [`deadline`].
pub fn deadline_at(now: i64, ttl: i64) -> (r: i64)
    ensures
        r == deadline(now, ttl),
{
    match now.checked_add(ttl) {
        Some(t) => t,
        None => if ttl > 0 {
            i64::MAX
        } else {
            i64::MIN
        },
    }
}

impl MemoryCache {
    /// A cache with nothing in it.
    pub fn new() -> (r: Self)
        ensures
            r@ == CacheView::empty(),
    {
        let r = MemoryCache {
            pages: HashMap::new(),
            counts: HashMap::new(),
            markers: HashMap::new(),
        };
        assert(r@.pages =~= Map::empty());
        assert(r@.counts =~= Map::empty());
        r
    }

    /// Whether there is an entry under the key at `now`.
    pub fn contains(&self, key: &CacheKey, now: i64) -> (r: bool)
        ensures
            r == self@.holds(*key, now),
    {
        broadcast use vstd::std_specs::hash::group_hash_axioms;

        match key {
            CacheKey::CommentPage(post_id) => match self.pages.get(post_id) {
                Some(slot) => now < slot.expires_at,
                None => false,
            },
            CacheKey::CommentCount(post_id) => match self.counts.get(post_id) {
                Some(slot) => match slot.expires_at {
                    Some(t) => now < t,
                    None => true,
                },
                None => false,
            },
            CacheKey::RateLimit(actor) => match self.markers.get(&actor.value) {
                Some(t) => now < *t,
                None => false,
            },
        }
    }

    /// Removes the entry under the key, if there is one.
    pub fn delete(&mut self, key: &CacheKey)
        ensures
            final(self)@ == old(self)@.without(*key),
    {
        broadcast use vstd::std_specs::hash::group_hash_axioms;

        match key {
            CacheKey::CommentPage(post_id) => {
                self.pages.remove(post_id);
                assert(self@.pages =~= old(self)@.pages.remove(*post_id));
                assert(self@.counts =~= old(self)@.counts);
            },
            CacheKey::CommentCount(post_id) => {
                self.counts.remove(post_id);
                assert(self@.counts =~= old(self)@.counts.remove(*post_id));
                assert(self@.pages =~= old(self)@.pages);
            },
            CacheKey::RateLimit(actor) => {
                self.markers.remove(&actor.value);
                assert(self@.pages =~= old(self)@.pages);
                assert(self@.counts =~= old(self)@.counts);
            },
        }
    }

    /// Sets the actor's rate-limit marker at `now` for `ttl` seconds.
    pub fn set_marker(&mut self, actor: UserId, ttl: i64, now: i64)
        ensures
            final(self)@ == old(self)@.with_marker(actor, ttl, now),
    {
        broadcast use vstd::std_specs::hash::group_hash_axioms;

        self.markers.insert(actor.value, deadline_at(now, ttl));
        assert(self@.pages =~= old(self)@.pages);
        assert(self@.counts =~= old(self)@.counts);
    }

    /// The cached page of a post at `now`.
    pub fn get_page(&self, post_id: i64, now: i64) -> (r: Option<Vec<CommentResponse>>)
        ensures
            r is Some == self@.page(post_id, now) is Some,
            r is Some ==> response_views(r->0@) == self@.page(post_id, now)->0,
    {
        broadcast use vstd::std_specs::hash::group_hash_axioms;

        match self.pages.get(&post_id) {
            Some(slot) => {
                if now < slot.expires_at {
                    Some(clone_responses(&slot.page))
                } else {
                    None
                }
            },
            None => None,
        }
    }

    /// Stores a page at `now` for `ttl` seconds.
    pub fn put_page(&mut self, post_id: i64, page: Vec<CommentResponse>, ttl: i64, now: i64)
        ensures
            final(self)@ == old(self)@.with_page(post_id, response_views(page@), ttl, now),
    {
        broadcast use vstd::std_specs::hash::group_hash_axioms;

        let slot = PageSlot { page, expires_at: deadline_at(now, ttl) };
        self.pages.insert(post_id, slot);
        assert(self@.pages =~= old(self)@.pages.insert(
            post_id,
            (response_views(page@), deadline(now, ttl)),
        ));
        assert(self@.counts =~= old(self)@.counts);
    }

    /// The cached count of a post at `now`.
    pub fn get_count(&self, post_id: i64, now: i64) -> (r: Option<i64>)
        ensures
            r == self@.count(post_id, now),
    {
        broadcast use vstd::std_specs::hash::group_hash_axioms;

        match self.counts.get(&post_id) {
            Some(slot) => {
                let there = match slot.expires_at {
                    Some(t) => now < t,
                    None => true,
                };
                if there {
                    Some(slot.count)
                } else {
                    None
                }
            },
            None => None,
        }
    }

    /// Stores a count at `now` for `ttl` seconds.
    pub fn set_count(&mut self, post_id: i64, count: i64, ttl: i64, now: i64)
        ensures
            final(self)@ == old(self)@.with_count(post_id, count, ttl, now),
    {
        broadcast use vstd::std_specs::hash::group_hash_axioms;

        let slot = CountSlot { count, expires_at: Some(deadline_at(now, ttl)) };
        self.counts.insert(post_id, slot);
        assert(self@.counts =~= old(self)@.counts.insert(
            post_id,
            (count, Some(deadline(now, ttl))),
        ));
        assert(self@.pages =~= old(self)@.pages);
    }

    /// Adds `delta` to the count of a post at `now` and says whether that
    /// could be done. A sum that does not fit changes nothing.
    pub fn increment(&mut self, post_id: i64, delta: i64, now: i64) -> (r: bool)
        ensures
            r == old(self)@.can_add(post_id, delta, now),
            r ==> final(self)@ == old(self)@.added(post_id, delta, now),
            !r ==> final(self)@ == old(self)@,
    {
        broadcast use vstd::std_specs::hash::group_hash_axioms;

        let current = self.get_count(post_id, now);
        match current {
            Some(c) => {
                let expires_at = match self.counts.get(&post_id) {
                    Some(slot) => slot.expires_at,
                    None => None,
                };
                match c.checked_add(delta) {
                    Some(sum) => {
                        self.counts.insert(post_id, CountSlot { count: sum, expires_at });
                        assert(self@.counts =~= old(self)@.counts.insert(
                            post_id,
                            (sum, old(self)@.counts[post_id].1),
                        ));
                        assert(self@.pages =~= old(self)@.pages);
                        true
                    },
                    None => false,
                }
            },
            None => {
                self.counts.insert(post_id, CountSlot { count: delta, expires_at: None });
                assert(self@.counts =~= old(self)@.counts.insert(post_id, (delta, None)));
                assert(self@.pages =~= old(self)@.pages);
                true
            },
        }
    }
}

} // verus!
