//! The HTTP API's request-level decisions: which handler a request reaches,
//! the headers every dynamic answer carries (cache policy and CORS), and who
//! the caller is.
use vstd::prelude::*;
use crate::numbers::{i32_text, parse_i32};
use crate::text::{char_count, ends_with, starts_with, str_contains_char, str_ends_with, str_eq, str_starts_with, substring, trim, trimmed};
use crate::types::ApiResponse;
use crate::urls::{url_parse_result, url_query_pairs, FeedUrl};

verus! {

/// The request methods the router tells apart.
#[derive(Debug, Clone, Copy, PartialEq, Eq, Structural)]
pub enum HttpMethod {
    Get,
    Post,
    Put,
    Delete,
    Options,
    Other,
}

/// Where a request goes.
#[derive(Debug)]
pub enum Route {
    /// CORS preflight: an empty answer with the API headers.
    Preflight,
    /// `GET /`: the welcome text.
    Root,
    /// `/health`: the plain liveness answer.
    LegacyHealth,
    /// `GET /feed`: the feed list.
    LegacyFeedList,
    /// `GET /feed/:id`: echoes the id.
    LegacyFeedEcho(String),
    /// `GET /feed/` with no usable id: 400 "Missing feed ID".
    LegacyMissingFeedId,
    /// `GET /api/diagnostics`.
    Diagnostics,
    /// `GET /api/health`.
    Health,
    /// `/api/sources` and below, any method: the retired API (501).
    SourcesRetired,
    /// `GET /api/feeds`: the shared-pool catalog.
    FeedCatalog,
    /// `POST /api/feeds`: find-or-create a feed and subscribe this device.
    CreateFeed,
    /// `GET /api/me/feeds`: this device's feeds.
    MyFeeds,
    /// `POST /api/feeds/:id/subscribe`.
    Subscribe(i32),
    /// `POST /api/feeds/:id/fetch`.
    FetchFeed(i32),
    /// `GET /api/feeds/:id/articles`.
    Articles(i32),
    /// `DELETE /api/feeds/:id`: unsubscribe this device.
    Unsubscribe(i32),
    /// An API path whose feed id does not parse: 400 "Invalid feed ID".
    InvalidFeedId,
    /// Anything else: 404 "Not Found".
    NotFound,
}

pub enum RouteView {
    Preflight,
    Root,
    LegacyHealth,
    LegacyFeedList,
    LegacyFeedEcho(Seq<char>),
    LegacyMissingFeedId,
    Diagnostics,
    Health,
    SourcesRetired,
    FeedCatalog,
    CreateFeed,
    MyFeeds,
    Subscribe(i32),
    FetchFeed(i32),
    Articles(i32),
    Unsubscribe(i32),
    InvalidFeedId,
    NotFound,
}

impl View for Route {
    type V = RouteView;

    open spec fn view(&self) -> RouteView {
        match self {
            Route::Preflight => RouteView::Preflight,
            Route::Root => RouteView::Root,
            Route::LegacyHealth => RouteView::LegacyHealth,
            Route::LegacyFeedList => RouteView::LegacyFeedList,
            Route::LegacyFeedEcho(id) => RouteView::LegacyFeedEcho(id@),
            Route::LegacyMissingFeedId => RouteView::LegacyMissingFeedId,
            Route::Diagnostics => RouteView::Diagnostics,
            Route::Health => RouteView::Health,
            Route::SourcesRetired => RouteView::SourcesRetired,
            Route::FeedCatalog => RouteView::FeedCatalog,
            Route::CreateFeed => RouteView::CreateFeed,
            Route::MyFeeds => RouteView::MyFeeds,
            Route::Subscribe(id) => RouteView::Subscribe(*id),
            Route::FetchFeed(id) => RouteView::FetchFeed(*id),
            Route::Articles(id) => RouteView::Articles(*id),
            Route::Unsubscribe(id) => RouteView::Unsubscribe(*id),
            Route::InvalidFeedId => RouteView::InvalidFeedId,
            Route::NotFound => RouteView::NotFound,
        }
    }
}

/// The part of `path` between a prefix it starts with and a suffix: empty
/// when what follows the prefix does not end with the suffix.
pub open spec fn segment_between(path: Seq<char>, prefix_len: int, suffix: Seq<char>) -> Seq<char> {
    let rest = path.subrange(prefix_len, path.len() as int);
    if ends_with(rest, suffix) {
        rest.subrange(0, rest.len() - suffix.len())
    } else {
        Seq::empty()
    }
}

pub open spec fn feed_id_route(id: Option<i32>, found: spec_fn(i32) -> RouteView) -> RouteView {
    match id {
        Some(i) => found(i),
        None => RouteView::InvalidFeedId,
    }
}

/// The API routes (after the legacy ones).
pub open spec fn api_route(method: HttpMethod, path: Seq<char>) -> RouteView {
    let feeds = "/api/feeds/"@;
    if method == HttpMethod::Get && path == "/api/diagnostics"@ {
        RouteView::Diagnostics
    } else if method == HttpMethod::Get && path == "/api/health"@ {
        RouteView::Health
    } else if path == "/api/sources"@ || starts_with(path, "/api/sources/"@) {
        RouteView::SourcesRetired
    } else if method == HttpMethod::Get && path == "/api/feeds"@ {
        RouteView::FeedCatalog
    } else if method == HttpMethod::Post && path == "/api/feeds"@ {
        RouteView::CreateFeed
    } else if method == HttpMethod::Get && path == "/api/me/feeds"@ {
        RouteView::MyFeeds
    } else if method == HttpMethod::Post && starts_with(path, feeds) && ends_with(path, "/subscribe"@) {
        feed_id_route(i32_text(segment_between(path, feeds.len() as int, "/subscribe"@)), |i: i32| RouteView::Subscribe(i))
    } else if method == HttpMethod::Post && starts_with(path, feeds) && ends_with(path, "/fetch"@) {
        feed_id_route(i32_text(segment_between(path, feeds.len() as int, "/fetch"@)), |i: i32| RouteView::FetchFeed(i))
    } else if method == HttpMethod::Get && starts_with(path, feeds) && ends_with(path, "/articles"@) {
        feed_id_route(i32_text(segment_between(path, feeds.len() as int, "/articles"@)), |i: i32| RouteView::Articles(i))
    } else if method == HttpMethod::Delete && starts_with(path, feeds) && !ends_with(path, "/articles"@)
        && !ends_with(path, "/subscribe"@) {
        feed_id_route(i32_text(path.subrange(feeds.len() as int, path.len() as int)), |i: i32| RouteView::Unsubscribe(i))
    } else {
        RouteView::NotFound
    }
}

/// Where a request goes: the preflight, the legacy endpoints (`/`,
/// `/health`, `/feed`, `/feed/:id`), then the API table.
pub open spec fn route_of(method: HttpMethod, path: Seq<char>) -> RouteView {
    if method == HttpMethod::Options {
        RouteView::Preflight
    } else if method == HttpMethod::Get && path == "/"@ {
        RouteView::Root
    } else if path == "/health"@ {
        RouteView::LegacyHealth
    } else if method == HttpMethod::Get && path == "/feed"@ {
        RouteView::LegacyFeedList
    } else if method == HttpMethod::Get && starts_with(path, "/feed/"@) {
        let id = path.subrange(6, path.len() as int);
        if id.len() == 0 || id.contains('/') {
            RouteView::LegacyMissingFeedId
        } else {
            RouteView::LegacyFeedEcho(id)
        }
    } else {
        api_route(method, path)
    }
}

/// Whether the answer on this route is a dynamic API answer, which carries
/// the cache and CORS headers (the preflight and every `/api` route).
pub open spec fn carries_api_headers(r: RouteView) -> bool {
    !(r is Root || r is LegacyHealth || r is LegacyFeedList || r is LegacyFeedEcho || r is LegacyMissingFeedId)
}

fn segment_id(path: &str, prefix_len: usize, suffix: &str) -> (r: Option<i32>)
    requires
        prefix_len <= path@.len(),
    ensures
        r == i32_text(segment_between(path@, prefix_len as int, suffix@)),
{
    let rest = substring(path, prefix_len, char_count(path));
    if str_ends_with(rest.as_str(), suffix) {
        let n = char_count(rest.as_str()) - char_count(suffix);
        let middle = substring(rest.as_str(), 0, n);
        parse_i32(middle.as_str())
    } else {
        proof {
            reveal_strlit("");
        }
        parse_i32("")
    }
}

fn api_route_of(method: HttpMethod, path: &str) -> (r: Route)
    ensures
        r@ == api_route(method, path@),
{
    let feeds = "/api/feeds/";
    proof {
        reveal_strlit("/api/feeds/");
    }
    if method == HttpMethod::Get && str_eq(path, "/api/diagnostics") {
        Route::Diagnostics
    } else if method == HttpMethod::Get && str_eq(path, "/api/health") {
        Route::Health
    } else if str_eq(path, "/api/sources") || str_starts_with(path, "/api/sources/") {
        Route::SourcesRetired
    } else if method == HttpMethod::Get && str_eq(path, "/api/feeds") {
        Route::FeedCatalog
    } else if method == HttpMethod::Post && str_eq(path, "/api/feeds") {
        Route::CreateFeed
    } else if method == HttpMethod::Get && str_eq(path, "/api/me/feeds") {
        Route::MyFeeds
    } else if method == HttpMethod::Post && str_starts_with(path, feeds) && str_ends_with(path, "/subscribe") {
        match segment_id(path, 11, "/subscribe") {
            Some(i) => Route::Subscribe(i),
            None => Route::InvalidFeedId,
        }
    } else if method == HttpMethod::Post && str_starts_with(path, feeds) && str_ends_with(path, "/fetch") {
        match segment_id(path, 11, "/fetch") {
            Some(i) => Route::FetchFeed(i),
            None => Route::InvalidFeedId,
        }
    } else if method == HttpMethod::Get && str_starts_with(path, feeds) && str_ends_with(path, "/articles") {
        match segment_id(path, 11, "/articles") {
            Some(i) => Route::Articles(i),
            None => Route::InvalidFeedId,
        }
    } else if method == HttpMethod::Delete && str_starts_with(path, feeds) && !str_ends_with(path, "/articles")
        && !str_ends_with(path, "/subscribe") {
        let rest = substring(path, 11, char_count(path));
        match parse_i32(rest.as_str()) {
            Some(i) => Route::Unsubscribe(i),
            None => Route::InvalidFeedId,
        }
    } else {
        Route::NotFound
    }
}

/// Routes a request by method and path.
pub fn route(method: HttpMethod, path: &str) -> (r: Route)
    ensures
        r@ == route_of(method, path@),
{
    if method == HttpMethod::Options {
        return Route::Preflight;
    }
    if method == HttpMethod::Get && str_eq(path, "/") {
        return Route::Root;
    }
    if str_eq(path, "/health") {
        return Route::LegacyHealth;
    }
    if method == HttpMethod::Get && str_eq(path, "/feed") {
        return Route::LegacyFeedList;
    }
    if method == HttpMethod::Get && str_starts_with(path, "/feed/") {
        proof {
            reveal_strlit("/feed/");
        }
        let id = substring(path, 6, char_count(path));
        if id.as_str().is_empty() || str_contains_char(id.as_str(), '/') {
            return Route::LegacyMissingFeedId;
        }
        return Route::LegacyFeedEcho(id);
    }
    api_route_of(method, path)
}

/// Whether an answer on this route carries the API headers.
pub fn route_carries_api_headers(r: &Route) -> (b: bool)
    ensures
        b == carries_api_headers(r@),
{
    !matches!(r, Route::Root | Route::LegacyHealth | Route::LegacyFeedList | Route::LegacyFeedEcho(_)
        | Route::LegacyMissingFeedId)
}

// ---------------------------------------------------------------------------
// cache policy and CORS

/// Browser origins allowed to read the API cross-origin: the production
/// frontend and local development, matched exactly.
pub open spec fn allowed_origin(origin: Seq<char>) -> bool {
    ||| origin == "https://rss-intelligence.pages.dev"@
    ||| origin == "http://localhost:4321"@
    ||| origin == "http://127.0.0.1:4321"@
}

/// Exact-match origin allow-list (no wildcard, no prefix or port slack).
pub fn is_allowed_origin(origin: &str) -> (r: bool)
    ensures
        r == allowed_origin(origin@),
{
    str_eq(origin, "https://rss-intelligence.pages.dev") || str_eq(origin, "http://localhost:4321")
        || str_eq(origin, "http://127.0.0.1:4321")
}

/// The headers of every dynamic API answer, in order: no caching, `Vary:
/// Origin`, the request's origin echoed back only when it is allowed, then
/// the permitted request headers and methods and the preflight lifetime.
pub open spec fn api_headers_for(origin: Option<Seq<char>>) -> Seq<(Seq<char>, Seq<char>)> {
    let head = seq![("Cache-Control"@, "no-store"@), ("Vary"@, "Origin"@)];
    let with_origin = match origin {
        Some(o) => if allowed_origin(o) { head.push(("Access-Control-Allow-Origin"@, o)) } else { head },
        None => head,
    };
    with_origin + seq![
        ("Access-Control-Allow-Headers"@, "Content-Type, X-User-Id"@),
        ("Access-Control-Allow-Methods"@, "GET, POST, PUT, DELETE, OPTIONS"@),
        ("Access-Control-Max-Age"@, "86400"@),
    ]
}

pub open spec fn header_seq(v: Vec<(String, String)>) -> Seq<(Seq<char>, Seq<char>)> {
    v@.map_values(|p: (String, String)| (p.0@, p.1@))
}

fn header(name: &str, value: &str) -> (r: (String, String))
    ensures
        r.0@ == name@,
        r.1@ == value@,
{
    (String::from_str(name), String::from_str(value))
}

/// The headers to set on a dynamic API answer for a request with this
/// `Origin` header.
pub fn api_headers(origin: Option<&str>) -> (r: Vec<(String, String)>)
    ensures
        header_seq(r) == api_headers_for(match origin { Some(o) => Some(o@), None => None::<Seq<char>> }),
{
    let mut v: Vec<(String, String)> = Vec::new();
    v.push(header("Cache-Control", "no-store"));
    v.push(header("Vary", "Origin"));
    if let Some(o) = origin {
        if is_allowed_origin(o) {
            v.push(header("Access-Control-Allow-Origin", o));
        }
    }
    let ghost middle = header_seq(v);
    v.push(header("Access-Control-Allow-Headers", "Content-Type, X-User-Id"));
    v.push(header("Access-Control-Allow-Methods", "GET, POST, PUT, DELETE, OPTIONS"));
    v.push(header("Access-Control-Max-Age", "86400"));
    assert(header_seq(v) =~= api_headers_for(match origin { Some(o) => Some(o@), None => None::<Seq<char>> }));
    v
}

/// The `Access-Control-Allow-Origin` header appears exactly when the request
/// named an allowed origin, and then it echoes that origin.
pub proof fn cors_echoes_only_allowed_origins(origin: Option<Seq<char>>)
    ensures
        (exists|i: int| 0 <= i < api_headers_for(origin).len()
            && #[trigger] api_headers_for(origin)[i].0 == "Access-Control-Allow-Origin"@)
            <==> (origin matches Some(o) && allowed_origin(o)),
        forall|i: int| 0 <= i < api_headers_for(origin).len()
            && #[trigger] api_headers_for(origin)[i].0 == "Access-Control-Allow-Origin"@
            ==> origin == Some(api_headers_for(origin)[i].1),
        api_headers_for(origin)[0] == ("Cache-Control"@, "no-store"@),
{
    reveal_strlit("Access-Control-Allow-Origin");
    reveal_strlit("Cache-Control");
    reveal_strlit("Vary");
    reveal_strlit("Access-Control-Allow-Headers");
    reveal_strlit("Access-Control-Allow-Methods");
    reveal_strlit("Access-Control-Max-Age");
    let h = api_headers_for(origin);
    if origin matches Some(o) && allowed_origin(o) {
        assert(h[2].0 == "Access-Control-Allow-Origin"@);
    }
    assert forall|i: int| 0 <= i < h.len() && #[trigger] h[i].0 == "Access-Control-Allow-Origin"@
        implies (origin matches Some(o) && allowed_origin(o)) && origin == Some(h[i].1) by {
        if !(origin matches Some(o) && allowed_origin(o)) {
            assert(h[i].0.len() != "Access-Control-Allow-Origin"@.len() || h[i].0 != "Access-Control-Allow-Origin"@);
        }
    }
}

// ---------------------------------------------------------------------------
// the caller

/// Who the caller of the dormant user-scoped API is: the `X-User-Id` header
/// trimmed, when not blank; else the first non-empty `user_id` query value;
/// else the shared `demo` user.
pub open spec fn caller_of(header: Option<Seq<char>>, request_url: Seq<char>) -> Seq<char> {
    let from_header = match header { Some(h) => trim(h), None => Seq::empty() };
    if from_header.len() > 0 {
        from_header
    } else {
        match url_parse_result(request_url) {
            Ok(u) => match first_user_id(url_query_pairs(u)) {
                Some(v) => v,
                None => "demo"@,
            },
            Err(_) => "demo"@,
        }
    }
}

/// The first non-empty value of a `user_id` pair.
pub open spec fn first_user_id(pairs: Seq<(Seq<char>, Seq<char>)>) -> Option<Seq<char>>
    decreases pairs.len(),
{
    if pairs.len() == 0 {
        None
    } else if pairs[0].0 == "user_id"@ && pairs[0].1.len() > 0 {
        Some(pairs[0].1)
    } else {
        first_user_id(pairs.drop_first())
    }
}

/// Placeholder identity for the user-scoped API: header, then query, then
/// `demo`.
pub fn current_user(header: Option<&str>, request_url: &str) -> (r: String)
    ensures
        r@ == caller_of(match header { Some(h) => Some(h@), None => None::<Seq<char>> }, request_url@),
{
    if let Some(h) = header {
        let value = trimmed(h);
        if !value.as_str().is_empty() {
            return value;
        }
    }
    match FeedUrl::parse(request_url) {
        Ok(u) => {
            let pairs = u.query_pairs();
            let ghost all = pairs@.map_values(|p: (String, String)| (p.0@, p.1@));
            let ghost expected = caller_of(match header { Some(h) => Some(h@), None => None::<Seq<char>> }, request_url@);
            assert(expected == match first_user_id(all) { Some(v) => v, None => "demo"@ });
            let mut i: usize = 0;
            assert(all.subrange(0, all.len() as int) == all);
            while i < pairs.len()
                invariant
                    expected == caller_of(match header { Some(h) => Some(h@), None => None::<Seq<char>> }, request_url@),
                    expected == match first_user_id(all) { Some(v) => v, None => "demo"@ },
                    i <= pairs.len(),
                    all == pairs@.map_values(|p: (String, String)| (p.0@, p.1@)),
                    first_user_id(all) == first_user_id(all.subrange(i as int, all.len() as int)),
                decreases pairs.len() - i,
            {
                let ghost rest = all.subrange(i as int, all.len() as int);
                assert(rest[0] == (pairs@[i as int].0@, pairs@[i as int].1@));
                let (k, v) = &pairs[i];
                if str_eq(k.as_str(), "user_id") && !v.as_str().is_empty() {
                    return v.clone();
                }
                assert(rest.drop_first() == all.subrange(i + 1, all.len() as int));
                i += 1;
            }
            String::from_str("demo")
        },
        Err(_) => String::from_str("demo"),
    }
}


// ---------------------------------------------------------------------------
// answers

/// An error answer of the JSON API: its HTTP status and its body.
#[derive(Debug)]
pub struct ApiError {
    pub status: u16,
    pub body: ApiResponse<()>,
}

/// A JSON error answer: `success: false`, no data, the message.
pub fn json_error(message: &str, status: u16) -> (r: ApiError)
    ensures
        r.status == status,
        !r.body.success,
        r.body.data is None,
        r.body.error matches Some(m) && m@ == message@,
{
    ApiError { status, body: ApiResponse::failure(String::from_str(message)) }
}

/// The answer of every `/api/sources` request: the API is retired (501).
pub fn sources_retired() -> (r: ApiError)
    ensures
        r.status == 501,
        !r.body.success,
        r.body.data is None,
        r.body.error matches Some(m) && m@ == "source API is retired (rss_sources is a dormant prototype layer)"@,
{
    json_error("source API is retired (rss_sources is a dormant prototype layer)", 501)
}

/// The answer when a request needs a device and names none (400).
pub fn device_required() -> (r: ApiError)
    ensures
        r.status == 400,
        !r.body.success,
        r.body.data is None,
        r.body.error matches Some(m) && m@ == "X-User-Id header required"@,
{
    json_error("X-User-Id header required", 400)
}

/// A failed answer with a message made of a prefix and a detail.
fn failure_with(prefix: &str, detail: &str) -> (r: ApiResponse<()>)
    ensures
        !r.success,
        r.data is None,
        r.error matches Some(m) && m@ == prefix@ + detail@,
{
    ApiResponse::failure(crate::text::concat2(prefix, detail))
}

/// The answer when refreshing a feed on request failed.
pub fn fetch_failed(error: &str) -> (r: ApiResponse<()>)
    ensures
        !r.success,
        r.data is None,
        r.error matches Some(m) && m@ == "Failed to fetch feed: "@ + error@,
{
    failure_with("Failed to fetch feed: ", error)
}

/// The answer when a create-feed body is not JSON.
pub fn invalid_json(error: &str) -> (r: ApiResponse<()>)
    ensures
        !r.success,
        r.data is None,
        r.error matches Some(m) && m@ == "Invalid JSON: "@ + error@,
{
    failure_with("Invalid JSON: ", error)
}

/// The deployment's name for the health answer: the `ENVIRONMENT` variable,
/// or "unknown" when it is not set.
pub fn environment_name(var: Option<String>) -> (r: String)
    ensures
        r@ == match var { Some(v) => v@, None => "unknown"@ },
{
    match var {
        Some(v) => v,
        None => String::from_str("unknown"),
    }
}

/// Pool counts for the health answer; a count the query did not give is 0.
#[derive(Debug, Clone, Copy, PartialEq, Eq, Structural)]
pub struct PoolCounts {
    pub feeds_total: i64,
    pub feeds_active: i64,
    pub feeds_failed: i64,
    pub articles_total: i64,
}

pub open spec fn or_zero(v: Option<i64>) -> i64 {
    match v {
        Some(n) => n,
        None => 0,
    }
}

pub fn pool_counts(feeds_total: Option<i64>, feeds_active: Option<i64>, feeds_failed: Option<i64>, articles_total: Option<i64>) -> (r: PoolCounts)
    ensures
        r == (PoolCounts {
            feeds_total: or_zero(feeds_total),
            feeds_active: or_zero(feeds_active),
            feeds_failed: or_zero(feeds_failed),
            articles_total: or_zero(articles_total),
        }),
{
    PoolCounts {
        feeds_total: match feeds_total { Some(n) => n, None => 0 },
        feeds_active: match feeds_active { Some(n) => n, None => 0 },
        feeds_failed: match feeds_failed { Some(n) => n, None => 0 },
        articles_total: match articles_total { Some(n) => n, None => 0 },
    }
}

}
