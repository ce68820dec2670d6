use rss_intelligence::api::HttpMethod::{Delete, Get, Options, Other, Post, Put};
use rss_intelligence::api::{
    api_headers, current_user, device_required, environment_name, fetch_failed, invalid_json, json_error, pool_counts,
    route, route_carries_api_headers, sources_retired, HttpMethod, PoolCounts, Route,
};
use rss_intelligence::identity::{ProfileEvent, ProfileResolution, ProfileStep};
use rss_intelligence::pool::{
    new_feed, AddFeed, AddFeedAction, AddFeedEvent, AddFeedInput, AddedFeed, Unsubscribe, UnsubscribeAction,
    UnsubscribeEvent,
};

fn routed(method: HttpMethod, path: &str) -> Route {
    route(method, path)
}

#[test]
fn routes_follow_the_api_table() {
    assert!(matches!(routed(Options, "/anything"), Route::Preflight));
    assert!(matches!(routed(Get, "/"), Route::Root));
    assert!(matches!(routed(Post, "/health"), Route::LegacyHealth));
    assert!(matches!(routed(Get, "/feed"), Route::LegacyFeedList));
    assert!(matches!(routed(Get, "/feed/42"), Route::LegacyFeedEcho(ref id) if id == "42"));
    assert!(matches!(routed(Get, "/feed/"), Route::LegacyMissingFeedId));
    assert!(matches!(routed(Get, "/feed/4/2"), Route::LegacyMissingFeedId));
    assert!(matches!(routed(Get, "/api/health"), Route::Health));
    assert!(matches!(routed(Get, "/api/diagnostics"), Route::Diagnostics));
    assert!(matches!(routed(Get, "/api/feeds"), Route::FeedCatalog));
    assert!(matches!(routed(Post, "/api/feeds"), Route::CreateFeed));
    assert!(matches!(routed(Get, "/api/me/feeds"), Route::MyFeeds));
    assert!(matches!(routed(Post, "/api/feeds/7/subscribe"), Route::Subscribe(7)));
    assert!(matches!(routed(Post, "/api/feeds/7/fetch"), Route::FetchFeed(7)));
    assert!(matches!(routed(Get, "/api/feeds/-3/articles"), Route::Articles(-3)));
    assert!(matches!(routed(Delete, "/api/feeds/12"), Route::Unsubscribe(12)));
    assert!(matches!(routed(Put, "/api/feeds/12"), Route::NotFound));
    assert!(matches!(routed(Get, "/nowhere"), Route::NotFound));
}

#[test]
fn feed_ids_must_parse_as_i32() {
    assert!(matches!(routed(Post, "/api/feeds/abc/fetch"), Route::InvalidFeedId));
    assert!(matches!(routed(Post, "/api/feeds/fetch"), Route::InvalidFeedId));
    assert!(matches!(routed(Delete, "/api/feeds/2147483648"), Route::InvalidFeedId));
    assert!(matches!(routed(Delete, "/api/feeds/5/fetch"), Route::InvalidFeedId));
    assert!(matches!(routed(Get, "/api/feeds/+8/articles"), Route::Articles(8)));
}

#[test]
fn the_sources_api_is_retired_for_every_method() {
    for method in [Get, Post, Put, Delete, Other] {
        assert!(matches!(routed(method, "/api/sources"), Route::SourcesRetired));
        assert!(matches!(routed(method, "/api/sources/3/fetch"), Route::SourcesRetired));
    }
    let answer = sources_retired();
    assert_eq!(answer.status, 501);
    assert!(!answer.body.success);
    assert_eq!(
        answer.body.error.as_deref(),
        Some("source API is retired (rss_sources is a dormant prototype layer)")
    );
}

#[test]
fn only_api_answers_carry_api_headers() {
    assert!(route_carries_api_headers(&Route::Preflight));
    assert!(route_carries_api_headers(&Route::NotFound));
    assert!(route_carries_api_headers(&Route::InvalidFeedId));
    assert!(!route_carries_api_headers(&Route::Root));
    assert!(!route_carries_api_headers(&Route::LegacyMissingFeedId));
}

fn header_names(headers: &[(String, String)]) -> Vec<&str> {
    headers.iter().map(|(n, _)| n.as_str()).collect()
}

#[test]
fn api_headers_echo_only_allowed_origins() {
    let allowed = api_headers(Some("http://localhost:4321"));
    assert_eq!(allowed[0], ("Cache-Control".to_string(), "no-store".to_string()));
    assert_eq!(allowed[1], ("Vary".to_string(), "Origin".to_string()));
    assert_eq!(allowed[2], ("Access-Control-Allow-Origin".to_string(), "http://localhost:4321".to_string()));
    assert_eq!(allowed.len(), 6);
    for origin in [Some("https://evil.example"), None] {
        let h = api_headers(origin);
        assert_eq!(
            header_names(&h),
            vec![
                "Cache-Control",
                "Vary",
                "Access-Control-Allow-Headers",
                "Access-Control-Allow-Methods",
                "Access-Control-Max-Age"
            ]
        );
        assert_eq!(h[2].1, "Content-Type, X-User-Id");
        assert_eq!(h[3].1, "GET, POST, PUT, DELETE, OPTIONS");
        assert_eq!(h[4].1, "86400");
    }
}

#[test]
fn current_user_prefers_header_then_query_then_demo() {
    assert_eq!(current_user(Some("  alice "), "https://w.example/api/sources?user_id=bob"), "alice");
    assert_eq!(current_user(Some("   "), "https://w.example/api/sources?user_id=&user_id=bob%20b"), "bob b");
    assert_eq!(current_user(None, "https://w.example/api/sources?x=1"), "demo");
    assert_eq!(current_user(None, "not a url"), "demo");
}

#[test]
fn error_answers_carry_their_message() {
    let e = json_error("Feed not found", 404);
    assert_eq!(e.status, 404);
    assert_eq!(e.body.error.as_deref(), Some("Feed not found"));
    assert!(e.body.data.is_none());
    let d = device_required();
    assert_eq!((d.status, d.body.error.as_deref()), (400, Some("X-User-Id header required")));
    assert_eq!(fetch_failed("boom").error.as_deref(), Some("Failed to fetch feed: boom"));
    assert_eq!(invalid_json("eof").error.as_deref(), Some("Invalid JSON: eof"));
    assert_eq!(environment_name(None), "unknown");
    assert_eq!(environment_name(Some("prod".to_string())), "prod");
    assert_eq!(
        pool_counts(Some(4), None, Some(1), None),
        PoolCounts { feeds_total: 4, feeds_active: 0, feeds_failed: 1, articles_total: 0 }
    );
}

// ---- device profiles ---------------------------------------------------------

#[test]
fn profiles_are_looked_up_then_provisioned_then_retried() {
    assert!(matches!(
        ProfileResolution::begin(Some("  ")),
        (None, ProfileStep::Done(Err(ref m))) if m == "X-User-Id header required"
    ));
    assert!(matches!(ProfileResolution::begin(None), (None, ProfileStep::Done(Err(_)))));

    let (m, step) = ProfileResolution::begin(Some(" dev-1 "));
    assert!(matches!(step, ProfileStep::Lookup(ref k) if k == "dev-1"));
    let mut m = m.expect("valid key");
    assert!(matches!(m.step(ProfileEvent::Looked(None)), ProfileStep::Insert(ref k) if k == "dev-1"));
    assert!(matches!(m.step(ProfileEvent::Inserted(None)), ProfileStep::Lookup(_)));
    assert!(matches!(m.step(ProfileEvent::Looked(Some(77))), ProfileStep::Done(Ok(77))));

    let (m, _) = ProfileResolution::begin(Some("dev-2"));
    let mut m = m.expect("valid key");
    m.step(ProfileEvent::Looked(None));
    m.step(ProfileEvent::Inserted(None));
    assert!(matches!(
        m.step(ProfileEvent::Looked(None)),
        ProfileStep::Done(Err(ref e)) if e == "profile provisioning failed"
    ));
}

// ---- adding feeds -------------------------------------------------------------

fn input(url: Option<&str>, title: Option<&str>, interval: Option<i64>) -> AddFeedInput {
    AddFeedInput { url: url.map(|u| u.to_string()), title: title.map(|t| t.to_string()), fetch_interval_minutes: interval }
}

#[test]
fn create_requests_are_trimmed_defaulted_and_clamped() {
    let f = new_feed(input(Some("  https://Example.com/rss/  "), None, Some(1))).expect("valid");
    assert_eq!(f.url, "https://Example.com/rss/");
    assert_eq!(f.title, "RSS Feed");
    assert_eq!(f.normalized_url, "https://example.com/rss");
    assert_eq!(f.fetch_interval_minutes, 5);
    assert_eq!(new_feed(input(Some("https://a.b"), Some("T"), Some(99999))).unwrap().fetch_interval_minutes, 1440);
    assert_eq!(new_feed(input(Some("https://a.b"), Some("T"), None)).unwrap().fetch_interval_minutes, 15);
    assert_eq!(new_feed(input(Some("   "), None, None)).err().as_deref(), Some("url is required"));
    assert_eq!(new_feed(input(None, None, None)).err().as_deref(), Some("url is required"));
}

#[test]
fn adding_a_new_feed_subscribes_before_queueing_its_first_fetch() {
    let (mut m, first) = AddFeed::begin(input(Some("https://example.com/rss/"), Some("T"), None)).expect("valid");
    assert!(matches!(first, AddFeedAction::FindExisting(ref u) if u == "https://example.com/rss"));
    assert!(matches!(m.step(AddFeedEvent::Existing(None)), AddFeedAction::CreateFeed(ref f) if f.title == "T"));
    assert!(matches!(m.step(AddFeedEvent::Created(Some(Some(41)))), AddFeedAction::Subscribe(41)));
    match m.step(AddFeedEvent::SubscriptionStored) {
        AddFeedAction::EnqueueFetch(job) => {
            assert_eq!(job.feed_id, 41);
            assert_eq!(job.url, "https://example.com/rss/");
        },
        other => panic!("expected EnqueueFetch, got {other:?}"),
    }
    assert!(matches!(m.step(AddFeedEvent::Enqueued), AddFeedAction::LoadFeedRow(41)));
    assert!(matches!(
        m.step(AddFeedEvent::RowLoaded(true)),
        AddFeedAction::Finish(Ok(AddedFeed { feed_id: 41, created: true, already: false }))
    ));
}

#[test]
fn adding_a_pooled_feed_subscribes_only_when_needed() {
    let (mut m, _) = AddFeed::begin(input(Some("https://example.com/rss"), None, None)).unwrap();
    assert!(matches!(m.step(AddFeedEvent::Existing(Some(Some(9)))), AddFeedAction::CheckSubscribed(9)));
    assert!(matches!(m.step(AddFeedEvent::Subscribed(true)), AddFeedAction::LoadFeedRow(9)));
    assert!(matches!(
        m.step(AddFeedEvent::RowLoaded(true)),
        AddFeedAction::Finish(Ok(AddedFeed { feed_id: 9, created: false, already: true }))
    ));

    let (mut m, _) = AddFeed::begin(input(Some("https://example.com/rss"), None, None)).unwrap();
    m.step(AddFeedEvent::Existing(Some(Some(9))));
    assert!(matches!(m.step(AddFeedEvent::Subscribed(false)), AddFeedAction::Subscribe(9)));
    assert!(matches!(m.step(AddFeedEvent::SubscriptionStored), AddFeedAction::LoadFeedRow(9)));
    assert!(matches!(
        m.step(AddFeedEvent::RowLoaded(false)),
        AddFeedAction::Finish(Err(ref e)) if e == "subscribed feed row missing"
    ));
}

#[test]
fn adding_a_feed_reports_missing_rows_and_ids() {
    let (mut m, _) = AddFeed::begin(input(Some("https://example.com/rss"), None, None)).unwrap();
    assert!(matches!(
        m.step(AddFeedEvent::Existing(Some(None))),
        AddFeedAction::Finish(Err(ref e)) if e == "existing feed row missing id"
    ));
    let (mut m, _) = AddFeed::begin(input(Some("https://example.com/rss"), None, None)).unwrap();
    m.step(AddFeedEvent::Existing(None));
    assert!(matches!(
        m.step(AddFeedEvent::Created(None)),
        AddFeedAction::Finish(Err(ref e)) if e == "feed insert returned no row"
    ));
    let (mut m, _) = AddFeed::begin(input(Some("https://example.com/rss"), None, None)).unwrap();
    m.step(AddFeedEvent::Existing(None));
    assert!(matches!(
        m.step(AddFeedEvent::Created(Some(None))),
        AddFeedAction::Finish(Err(ref e)) if e == "feed insert missing id"
    ));
}

// ---- unsubscribing --------------------------------------------------------------

#[test]
fn the_last_subscriber_prunes_the_feed() {
    let (mut m, first) = Unsubscribe::begin();
    assert!(matches!(first, UnsubscribeAction::CheckFeed));
    assert!(matches!(m.step(UnsubscribeEvent::FeedExists(true)), UnsubscribeAction::CheckSubscribed));
    assert!(matches!(m.step(UnsubscribeEvent::Subscribed(true)), UnsubscribeAction::DeleteSubscription));
    assert!(matches!(m.step(UnsubscribeEvent::SubscriptionDeleted), UnsubscribeAction::CountSubscribers));
    assert!(matches!(m.step(UnsubscribeEvent::Subscribers(Some(0))), UnsubscribeAction::Prune));
    assert!(matches!(m.step(UnsubscribeEvent::Pruned), UnsubscribeAction::Finish(Ok(true))));

    let (mut m, _) = Unsubscribe::begin();
    m.step(UnsubscribeEvent::FeedExists(true));
    m.step(UnsubscribeEvent::Subscribed(true));
    m.step(UnsubscribeEvent::SubscriptionDeleted);
    assert!(matches!(m.step(UnsubscribeEvent::Subscribers(Some(2))), UnsubscribeAction::Finish(Ok(false))));
}

#[test]
fn unsubscribing_unknown_or_foreign_feeds_is_a_404() {
    let (mut m, _) = Unsubscribe::begin();
    assert!(matches!(
        m.step(UnsubscribeEvent::FeedExists(false)),
        UnsubscribeAction::Finish(Err(ref e)) if e == "Feed not found"
    ));
    let (mut m, _) = Unsubscribe::begin();
    m.step(UnsubscribeEvent::FeedExists(true));
    assert!(matches!(
        m.step(UnsubscribeEvent::Subscribed(false)),
        UnsubscribeAction::Finish(Err(ref e)) if e == "Not subscribed to this feed"
    ));
}

// ---- whole runs against an in-memory store ----------------------------------------

struct Pool {
    feeds: std::collections::HashMap<String, i64>,
    subscribed: std::collections::HashSet<i32>,
    next_id: i64,
    writes: usize,
}

fn add_against(pool: &mut Pool, url: &str) -> Result<AddedFeed, String> {
    let (mut m, mut action) = AddFeed::begin(input(Some(url), None, None))?;
    loop {
        let event = match action {
            AddFeedAction::FindExisting(u) => AddFeedEvent::Existing(pool.feeds.get(&u).map(|id| Some(*id))),
            AddFeedAction::CheckSubscribed(id) => AddFeedEvent::Subscribed(pool.subscribed.contains(&id)),
            AddFeedAction::Subscribe(id) => {
                pool.writes += 1;
                pool.subscribed.insert(id);
                AddFeedEvent::SubscriptionStored
            },
            AddFeedAction::CreateFeed(f) => {
                pool.writes += 1;
                let id = pool.next_id;
                pool.next_id += 1;
                pool.feeds.insert(f.normalized_url, id);
                AddFeedEvent::Created(Some(Some(id)))
            },
            AddFeedAction::EnqueueFetch(_) => {
                pool.writes += 1;
                AddFeedEvent::Enqueued
            },
            AddFeedAction::LoadFeedRow(id) => AddFeedEvent::RowLoaded(pool.feeds.values().any(|v| *v == id as i64)),
            AddFeedAction::Finish(r) => return r,
        };
        action = m.step(event);
    }
}

#[test]
fn adding_the_same_feed_twice_writes_nothing_the_second_time() {
    let mut pool = Pool {
        feeds: std::collections::HashMap::new(),
        subscribed: std::collections::HashSet::new(),
        next_id: 3,
        writes: 0,
    };
    let first = add_against(&mut pool, "https://Example.com/rss/").expect("added");
    assert_eq!(first, AddedFeed { feed_id: 3, created: true, already: false });
    let writes = pool.writes;
    assert_eq!(writes, 3);
    let second = add_against(&mut pool, "  https://example.com/rss ").expect("added again");
    assert_eq!(second, AddedFeed { feed_id: 3, created: false, already: true });
    assert_eq!(pool.writes, writes);
    assert_eq!(pool.feeds.len(), 1);
}

fn resolve_against(table: &mut std::collections::HashMap<String, i64>, next: &mut i64, header: Option<&str>) -> Result<i32, String> {
    let (m, mut step) = ProfileResolution::begin(header);
    let Some(mut m) = m else {
        return match step {
            ProfileStep::Done(r) => r,
            _ => panic!("a refused key ends at once"),
        };
    };
    loop {
        let event = match step {
            ProfileStep::Lookup(k) => ProfileEvent::Looked(table.get(&k).copied()),
            ProfileStep::Insert(k) => {
                if table.contains_key(&k) {
                    ProfileEvent::Inserted(None)
                } else {
                    let id = *next;
                    *next += 1;
                    table.insert(k, id);
                    ProfileEvent::Inserted(Some(id))
                }
            },
            ProfileStep::Done(r) => return r,
        };
        step = m.step(event);
    }
}

#[test]
fn keys_that_normalise_alike_share_one_profile() {
    let mut table = std::collections::HashMap::new();
    let mut next = 10;
    let first = resolve_against(&mut table, &mut next, Some(" dev-9 ")).expect("provisioned");
    assert_eq!(first, 10);
    let again = resolve_against(&mut table, &mut next, Some("dev-9")).expect("found");
    assert_eq!(again, 10);
    assert_eq!(table.len(), 1);
    assert_eq!(resolve_against(&mut table, &mut next, Some("")), Err("X-User-Id header required".to_string()));
    assert_eq!(table.len(), 1);
}
