//! The data model shared by the worker, its storage and its API.
use vstd::prelude::*;

verus! {

/// A feed of the shared pool.
#[derive(Debug, Clone, PartialEq)]
pub struct Feed {
    pub id: i32,
    pub url: String,
    pub title: Option<String>,
    pub site_url: Option<String>,
    pub favicon_url: Option<String>,
    pub last_fetched_at: Option<String>,
    pub status: String,
}

/// An article of a feed.
#[derive(Debug, Clone, PartialEq)]
pub struct Article {
    pub id: i32,
    pub feed_id: i32,
    pub title: String,
    pub link: String,
    pub guid: String,
    pub summary: Option<String>,
    pub content: Option<String>,
    pub published_at: Option<String>,
    pub hash: String,
}

pub struct ArticleView {
    pub id: i32,
    pub feed_id: i32,
    pub title: Seq<char>,
    pub link: Seq<char>,
    pub guid: Seq<char>,
    pub summary: Option<Seq<char>>,
    pub content: Option<Seq<char>>,
    pub published_at: Option<Seq<char>>,
    pub hash: Seq<char>,
}

pub open spec fn opt_chars(o: Option<String>) -> Option<Seq<char>> {
    match o {
        Some(s) => Some(s@),
        None => None,
    }
}

impl View for Article {
    type V = ArticleView;

    open spec fn view(&self) -> ArticleView {
        ArticleView {
            id: self.id,
            feed_id: self.feed_id,
            title: self.title@,
            link: self.link@,
            guid: self.guid@,
            summary: opt_chars(self.summary),
            content: opt_chars(self.content),
            published_at: opt_chars(self.published_at),
            hash: self.hash@,
        }
    }
}

/// A device's subscription to a feed.
#[derive(Debug, Clone, PartialEq)]
pub struct Subscription {
    pub id: i32,
    pub user_id: i32,
    pub feed_id: i32,
    pub created_at: String,
}

/// Body of a request that adds a feed.
#[derive(Debug)]
pub struct CreateFeedRequest {
    pub url: String,
    pub title: Option<String>,
    pub site_url: Option<String>,
}

/// Body of a request that subscribes a user to a feed.
#[derive(Debug)]
pub struct SubscribeFeedRequest {
    pub user_id: i32,
    pub feed_id: i32,
}

/// The envelope of every JSON API answer.
#[derive(Debug, PartialEq)]
pub struct ApiResponse<T> {
    pub success: bool,
    pub data: Option<T>,
    pub error: Option<String>,
}

impl<T> ApiResponse<T> {
    /// A successful answer carrying `data`.
    pub fn ok(data: T) -> (r: Self)
        ensures
            r.success,
            r.data == Some(data),
            r.error is None,
    {
        ApiResponse { success: true, data: Some(data), error: None }
    }

    /// A failed answer carrying an error message and no data.
    pub fn failure(message: String) -> (r: Self)
        ensures
            !r.success,
            r.data is None,
            r.error == Some(message),
    {
        ApiResponse { success: false, data: None, error: Some(message) }
    }
}

/// A cached value with the UNIX time (seconds) it was stored at.
#[derive(Debug, Clone)]
pub struct CacheEntry<T> {
    pub data: T,
    pub timestamp: u64,
}

/// The seconds elapsed from `stored_at` to `now`, as the unsigned
/// subtraction the cache uses gives them (wrapping when the entry claims to
/// be from the future).
pub open spec fn elapsed_seconds(now: u64, stored_at: u64) -> int {
    if now >= stored_at { now - stored_at } else { now - stored_at + 0x1_0000_0000_0000_0000 }
}

/// A cache entry stored at `stored_at` is still fresh at `now` under a TTL of
/// `ttl_seconds`: less than the TTL has elapsed.
pub open spec fn cache_is_fresh(now: u64, stored_at: u64, ttl_seconds: u64) -> bool {
    elapsed_seconds(now, stored_at) < ttl_seconds
}

impl<T> CacheEntry<T> {
    /// Whether this entry is still fresh at `now` (both in UNIX seconds).
    pub fn is_fresh(&self, now: u64, ttl_seconds: u64) -> (r: bool)
        ensures
            r == cache_is_fresh(now, self.timestamp, ttl_seconds),
    {
        now.wrapping_sub(self.timestamp) < ttl_seconds
    }
}

}
