//! The cache facade: which keys exist, how they are spelled, and how long
//! their entries live. The connection itself is carried along untouched.

use crate::ident::UserId;
use crate::text::{decimal, prefixed_decimal};
use vstd::prelude::*;
use vstd::string::*;

verus! {

/// Lifetime of a cached post, in seconds.
pub const POST_CACHE_TTL_SECONDS: u64 = 3600;

/// Lifetime of the cached list of popular posts, in seconds.
pub const POPULAR_POSTS_TTL_SECONDS: u64 = 3600;

/// Lifetime of cached post statistics, in seconds.
pub const POST_STATS_TTL_SECONDS: u64 = 86400;

/// Lifetime of cached user engagement, in seconds.
pub const USER_ENGAGEMENT_TTL_SECONDS: u64 = 86400;

/// Lifetime of a cached page of comments, in seconds.
pub const COMMENT_PAGE_TTL_SECONDS: i64 = 3600;

/// Lifetime of a cached comment count, in seconds.
pub const COMMENT_COUNT_TTL_SECONDS: i64 = 3600;

/// Length of the window in which an actor may post one comment, in seconds.
pub const COMMENT_RATE_LIMIT_SECONDS: i64 = 100;

/// What can go wrong in a cache operation.
#[derive(Debug, PartialEq, Eq)]
pub enum CacheError {
    RedisError(String),
    SerializationError(String),
    DeserializationError(String),
    OperationFailed(String),
}

impl CacheError {
    /// The sentence that describes the error.
    pub open spec fn sentence(self) -> Seq<char> {
        match self {
            CacheError::RedisError(m) => "Redis error: "@ + m@,
            CacheError::SerializationError(m) => "Serialization error: "@ + m@,
            CacheError::DeserializationError(m) => "Deserialization error: "@ + m@,
            CacheError::OperationFailed(m) => "Cache operation failed: "@ + m@,
        }
    }

    /// The sentence that describes the error.
    pub fn message(&self) -> (r: String)
        ensures
            r@ == self.sentence(),
    {
        match self {
            CacheError::RedisError(m) => {
                let mut out = String::from_str("Redis error: ");
                out.append(m.as_str());
                out
            },
            CacheError::SerializationError(m) => {
                let mut out = String::from_str("Serialization error: ");
                out.append(m.as_str());
                out
            },
            CacheError::DeserializationError(m) => {
                let mut out = String::from_str("Deserialization error: ");
                out.append(m.as_str());
                out
            },
            CacheError::OperationFailed(m) => {
                let mut out = String::from_str("Cache operation failed: ");
                out.append(m.as_str());
                out
            },
        }
    }
}

/// Lifetimes that a deployment may set in place of the defaults, in
/// seconds.
#[derive(Clone, Copy, Debug)]
pub struct RedisConfig {
    pub post_stats_ttl: Option<u64>,
    pub user_engagement_ttl: Option<u64>,
}

#[verifier::external_type_specification]
#[verifier::external_body]
pub struct ExRedisClient(redis::Client);

/// `Clone` of `redis::Client`, which copies the connection settings that
/// the client holds: the copy is the same client.
pub assume_specification[ <redis::Client as Clone>::clone ](client: &redis::Client) -> (r:
    redis::Client)
    ensures
        r == *client,
;

/// The cache facade of a deployment: the client that reaches the cache and
/// the settings that go with it.
#[derive(Debug)]
pub struct RedisCache {
    client: redis::Client,
    config: Option<RedisConfig>,
    prefix: Option<String>,
}

impl Clone for RedisCache {
    fn clone(&self) -> (r: Self)
        ensures
            r.client() == self.client(),
            r.config() == self.config(),
            r.prefix() == self.prefix(),
    {
        RedisCache {
            client: self.client.clone(),
            config: self.config,
            prefix: match &self.prefix {
                Some(p) => Some(p.clone()),
                None => None,
            },
        }
    }
}

impl RedisCache {
    /// The client that reaches the cache.
    pub closed spec fn client(&self) -> redis::Client {
        self.client
    }

    /// The settings of this facade, if any were given.
    pub closed spec fn config(&self) -> Option<RedisConfig> {
        self.config
    }

    /// The prefix put before every key, if any.
    pub closed spec fn prefix(&self) -> Option<String> {
        self.prefix
    }

    /// A facade over `client`. Nothing is sent: whether the cache can be
    /// reached shows on first use.
    pub fn new(client: redis::Client, config: Option<RedisConfig>) -> (r: Self)
        ensures
            r.client() == client,
            r.config() == config,
            r.prefix() is None,
    {
        RedisCache { client, config, prefix: None }
    }

    /// The client that reaches the cache.
    pub fn get_client(&self) -> (r: &redis::Client)
        ensures
            *r == self.client(),
    {
        &self.client
    }
}

/// A key of the comment cache, by what it stands for.
#[derive(Clone, Copy, Debug, PartialEq, Eq, Structural)]
pub enum CacheKey {
    /// The assembled page of comments of a post.
    CommentPage(i64),
    /// The number of comments of a post.
    CommentCount(i64),
    /// The marker that an actor has commented within the current window.
    RateLimit(UserId),
}

impl CacheKey {
    /// The key as the cache sees it.
    pub open spec fn spelling(self) -> Seq<char> {
        match self {
            CacheKey::CommentPage(post_id) => "comments:post:"@ + decimal(post_id as int),
            CacheKey::CommentCount(post_id) => "post:comment_count:"@ + decimal(post_id as int),
            CacheKey::RateLimit(actor) => "rate_limit:comment:"@ + actor.text(),
        }
    }

    /// Spells the key as the cache sees it.
    pub fn render(&self) -> (r: String)
        ensures
            r@ == self.spelling(),
    {
        match self {
            CacheKey::CommentPage(post_id) => prefixed_decimal("comments:post:", *post_id),
            CacheKey::CommentCount(post_id) => prefixed_decimal("post:comment_count:", *post_id),
            CacheKey::RateLimit(actor) => {
                let mut out = String::from_str("rate_limit:comment:");
                let id = actor.to_text();
                out.append(id.as_str());
                out
            },
        }
    }
}

/// The name of the stream that records structural changes to comments.
pub fn comment_stream() -> (r: &'static str)
    ensures
        r@ == "stream:comments"@,
{
    "stream:comments"
}

/// The channel on which a user's notifications are published.
pub open spec fn channel_name(recipient: UserId) -> Seq<char> {
    "notifications:user:"@ + recipient.text()
}

/// Spells the channel on which a user's notifications are published.
pub fn notification_channel(recipient: &UserId) -> (r: String)
    ensures
        r@ == channel_name(*recipient),
{
    let mut out = String::from_str("notifications:user:");
    let id = recipient.to_text();
    out.append(id.as_str());
    out
}

/// The key under which a post is cached by its id.
pub fn post_id_key(id: i64) -> (r: String)
    ensures
        r@ == "post:id:"@ + decimal(id as int),
{
    prefixed_decimal("post:id:", id)
}

/// The key under which a post is cached by its slug.
pub fn post_slug_key(slug: &str) -> (r: String)
    ensures
        r@ == "post:slug:"@ + slug@,
{
    let mut out = String::from_str("post:slug:");
    out.append(slug);
    out
}

/// The key of the cached list of popular posts.
pub fn popular_posts_key() -> (r: &'static str)
    ensures
        r@ == "popular_posts"@,
{
    "popular_posts"
}

/// The key of the hash that counts a post's views.
pub fn post_counters_key(post_id: i64) -> (r: String)
    ensures
        r@ == "stats:post:"@ + decimal(post_id as int),
{
    prefixed_decimal("stats:post:", post_id)
}

/// The key under which the statistics of a post are cached.
pub fn post_stats_key(post_id: i64) -> (r: String)
    ensures
        r@ == "post_stats:"@ + decimal(post_id as int),
{
    prefixed_decimal("post_stats:", post_id)
}

/// The key under which the engagement of a user is cached.
pub fn user_engagement_key(user_id: &UserId) -> (r: String)
    ensures
        r@ == "user_engagement:"@ + user_id.text(),
{
    let mut out = String::from_str("user_engagement:");
    let id = user_id.to_text();
    out.append(id.as_str());
    out
}

/// The key of the hash that holds a user's engagement with one post.
pub fn engagement_key(user_id: &UserId, post_id: i64) -> (r: String)
    ensures
        r@ == "engagement:user:"@ + user_id.text() + ":post:"@ + decimal(post_id as int),
{
    let mut out = String::from_str("engagement:user:");
    let id = user_id.to_text();
    out.append(id.as_str());
    out.append(":post:");
    crate::text::append_decimal(&mut out, post_id);
    out
}

/// No two keys of the comment cache are spelled alike.
pub proof fn law_keys_are_distinct(a: CacheKey, b: CacheKey)
    requires
        a.spelling() == b.spelling(),
    ensures
        a == b,
{
    law_namespaces_disjoint(a, b);
    reveal_strlit("comments:post:");
    reveal_strlit("post:comment_count:");
    reveal_strlit("rate_limit:comment:");
    let text = a.spelling();
    match (a, b) {
        (CacheKey::CommentPage(x), CacheKey::CommentPage(y)) => {
            let n = "comments:post:"@.len() as int;
            assert(text.subrange(n, text.len() as int) =~= decimal(x as int));
            assert(text.subrange(n, text.len() as int) =~= decimal(y as int));
            crate::text::lemma_decimals_differ(x as int, y as int);
        },
        (CacheKey::CommentCount(x), CacheKey::CommentCount(y)) => {
            let n = "post:comment_count:"@.len() as int;
            assert(text.subrange(n, text.len() as int) =~= decimal(x as int));
            assert(text.subrange(n, text.len() as int) =~= decimal(y as int));
            crate::text::lemma_decimals_differ(x as int, y as int);
        },
        (CacheKey::RateLimit(x), CacheKey::RateLimit(y)) => {
            let n = "rate_limit:comment:"@.len() as int;
            assert(text.subrange(n, text.len() as int) =~= x.text());
            assert(text.subrange(n, text.len() as int) =~= y.text());
            crate::ident::lemma_texts_differ(x, y);
        },
        _ => {},
    }
}

/// The three namespaces of the comment cache never share a key: what is
/// stored for a page cannot be mistaken for a count or a rate-limit marker.
pub proof fn law_namespaces_disjoint(a: CacheKey, b: CacheKey)
    ensures
        a.spelling() == b.spelling() ==> (a is CommentPage <==> b is CommentPage) && (a
            is CommentCount <==> b is CommentCount) && (a is RateLimit <==> b is RateLimit),
{
    reveal_strlit("comments:post:");
    reveal_strlit("post:comment_count:");
    reveal_strlit("rate_limit:comment:");
    assert("comments:post:"@[0] == 'c');
    assert("post:comment_count:"@[0] == 'p');
    assert("rate_limit:comment:"@[0] == 'r');
    assert(a.spelling()[0] == match a {
        CacheKey::CommentPage(_) => 'c',
        CacheKey::CommentCount(_) => 'p',
        CacheKey::RateLimit(_) => 'r',
    });
    assert(b.spelling()[0] == match b {
        CacheKey::CommentPage(_) => 'c',
        CacheKey::CommentCount(_) => 'p',
        CacheKey::RateLimit(_) => 'r',
    });
}

} // verus!
