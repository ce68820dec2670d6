use rss_intelligence::fetch::FetchedFeed;
use rss_intelligence::numbers::{parse_i32, parse_i64, parse_usize};
use rss_intelligence::scheduler::{current_run_key, due_jobs, DueFeed};
use rss_intelligence::sources::{
    clamp_int, new_source, parse_id_from_path, source_update, SourceAction, SourceEvent, SourceInput, SourceRefresh,
    SourceUpdateInput,
};
use rss_intelligence::time::{normalize_published_at, sqlite_now};
use rss_intelligence::types::{ApiResponse, CacheEntry};

#[test]
fn integers_parse_like_str_parse() {
    assert_eq!(parse_i64("42"), Some(42));
    assert_eq!(parse_i64("-9223372036854775808"), Some(i64::MIN));
    assert_eq!(parse_i64("9223372036854775808"), None);
    assert_eq!(parse_i64("+7"), Some(7));
    assert_eq!(parse_i64("-"), None);
    assert_eq!(parse_i64(""), None);
    assert_eq!(parse_i64("1 2"), None);
    assert_eq!(parse_i32("2147483647"), Some(i32::MAX));
    assert_eq!(parse_i32("2147483648"), None);
    assert_eq!(parse_usize("+0012"), Some(12));
    assert_eq!(parse_usize("-1"), None);
    assert_eq!(parse_usize("99999999999999999999999"), None);
    for text in ["0", "17", "-5", "+3", "x", "", "00", "123456789012"] {
        assert_eq!(parse_i64(text), text.parse::<i64>().ok(), "{text}");
        assert_eq!(parse_i32(text), text.parse::<i32>().ok(), "{text}");
        assert_eq!(parse_usize(text), text.parse::<usize>().ok(), "{text}");
    }
}

#[test]
fn source_ids_come_from_the_third_path_segment() {
    assert_eq!(parse_id_from_path("/api/sources/12"), Some(12));
    assert_eq!(parse_id_from_path("/api/sources/12/articles"), Some(12));
    assert_eq!(parse_id_from_path("//api//sources//-4//fetch"), Some(-4));
    assert_eq!(parse_id_from_path("/api/sources"), None);
    assert_eq!(parse_id_from_path("/api/sources/x"), None);
}

#[test]
fn clamp_int_holds_values_in_range() {
    assert_eq!(clamp_int(None, 60), 60);
    assert_eq!(clamp_int(Some(0), 60), 1);
    assert_eq!(clamp_int(Some(250_000), 60), 100_000);
    assert_eq!(clamp_int(Some(42), 60), 42);
}

#[test]
fn source_requests_are_checked() {
    let ok = new_source(SourceInput {
        url: "  https://example.com/rss ".to_string(),
        title: Some("  ".to_string()),
        site_url: Some(" https://example.com ".to_string()),
        enabled: None,
        fetch_interval_minutes: Some(0),
    })
    .expect("valid source");
    assert_eq!(ok.url, "https://example.com/rss");
    assert_eq!(ok.title, None);
    assert_eq!(ok.site_url.as_deref(), Some("https://example.com"));
    assert_eq!((ok.enabled, ok.fetch_interval_minutes), (1, 1));
    let blank = SourceInput { url: " ".to_string(), title: None, site_url: None, enabled: None, fetch_interval_minutes: None };
    assert_eq!(new_source(blank).err().as_deref(), Some("url is required"));
    let ftp = SourceInput { url: "ftp://x.y/z".to_string(), title: None, site_url: None, enabled: None, fetch_interval_minutes: None };
    assert_eq!(new_source(ftp).err().as_deref(), Some("url must be http(s)"));

    let nothing = SourceUpdateInput { url: Some(" ".to_string()), title: None, site_url: None, enabled: None, fetch_interval_minutes: None };
    assert_eq!(source_update(nothing).err().as_deref(), Some("no updates provided"));
    let some = SourceUpdateInput { url: None, title: Some(" New ".to_string()), site_url: None, enabled: Some(5), fetch_interval_minutes: Some(-3) };
    let u = source_update(some).expect("has changes");
    assert_eq!(u.title.as_deref(), Some("New"));
    assert_eq!((u.enabled, u.fetch_interval_minutes), (Some(1), Some(1)));
}

#[test]
fn source_jobs_mark_the_source_and_store_articles() {
    let (mut job, first) = SourceRefresh::begin(9, "https://example.com/rss");
    assert!(matches!(first, SourceAction::CheckOwned));
    assert!(matches!(job.step(SourceEvent::Owned(true)), SourceAction::FetchDocument(_)));
    let body = "<rss><channel><item><title>A</title><link>https://e.x/a</link></item></channel></rss>";
    let fetched = FetchedFeed { status: 200, etag: None, last_modified: None, body: body.to_string() };
    match job.step(SourceEvent::Fetched(Ok(fetched))) {
        SourceAction::InsertArticles(a) => assert_eq!(a[0].feed_id, 9),
        _ => panic!("expected InsertArticles"),
    }
    assert!(matches!(
        job.step(SourceEvent::Inserted),
        SourceAction::MarkSource { ref status, error: None } if status == "active"
    ));
    assert!(matches!(job.step(SourceEvent::Marked), SourceAction::Finish(Ok(()))));

    let (mut job, _) = SourceRefresh::begin(9, "https://example.com/rss");
    assert!(matches!(
        job.step(SourceEvent::Owned(false)),
        SourceAction::Finish(Err(ref e)) if e == "source not found for user"
    ));
    let (mut job, _) = SourceRefresh::begin(9, "https://example.com/rss");
    job.step(SourceEvent::Owned(true));
    let gone = FetchedFeed { status: 410, etag: None, last_modified: None, body: String::new() };
    assert!(matches!(
        job.step(SourceEvent::Fetched(Ok(gone))),
        SourceAction::MarkSource { ref status, error: Some(ref e) } if status == "error" && e == "feed returned HTTP 410"
    ));
    assert!(matches!(job.step(SourceEvent::Marked), SourceAction::Finish(Err(ref e)) if e == "feed returned HTTP 410"));
}

#[test]
fn due_feeds_without_id_or_url_are_skipped() {
    let rows = vec![
        DueFeed { id: Some(3), url: Some("https://a.b/rss".to_string()) },
        DueFeed { id: Some(0), url: Some("https://a.b/zero".to_string()) },
        DueFeed { id: None, url: Some("https://a.b/none".to_string()) },
        DueFeed { id: Some(4), url: Some(String::new()) },
        DueFeed { id: Some(5), url: None },
        DueFeed { id: Some(6), url: Some("https://a.b/six".to_string()) },
    ];
    let jobs = due_jobs(&rows);
    assert_eq!(jobs.len(), 2);
    assert_eq!((jobs[0].feed_id, jobs[0].url.as_str()), (3, "https://a.b/rss"));
    assert_eq!((jobs[1].feed_id, jobs[1].url.as_str()), (6, "https://a.b/six"));
}

#[test]
fn run_keys_name_the_current_minute() {
    let key = current_run_key();
    let now = sqlite_now();
    assert_eq!(key.len(), 16);
    assert_eq!(&key[4..5], "-");
    assert_eq!(&key[10..11], " ");
    assert_eq!(&key[13..14], ":");
    assert!(now.starts_with(&key[..13]));
}

#[test]
fn cache_entries_expire_after_their_ttl() {
    let entry = CacheEntry { data: "x".to_string(), timestamp: 1_000 };
    assert!(entry.is_fresh(1_000, 60));
    assert!(entry.is_fresh(1_059, 60));
    assert!(!entry.is_fresh(1_060, 60));
    assert!(!entry.is_fresh(1_000, 0));
}

#[test]
fn api_responses_are_built_consistently() {
    let ok = ApiResponse::ok(3);
    assert_eq!(ok, ApiResponse { success: true, data: Some(3), error: None });
    let failed: ApiResponse<i32> = ApiResponse::failure("bad".to_string());
    assert_eq!(failed, ApiResponse { success: false, data: None, error: Some("bad".to_string()) });
}

#[test]
fn canonical_published_at_sorts_like_time_and_is_stable() {
    let a = normalize_published_at("Wed, 02 Sep 2026 23:59:59 +0100").unwrap();
    let b = normalize_published_at("2026-09-02T23:30:00Z").unwrap();
    assert_eq!(a, "2026-09-02T22:59:59Z");
    assert!(a < b);
    for c in [&a, &b] {
        assert_eq!(normalize_published_at(c).as_ref(), Some(c));
    }
    // A leap second is shown as second 60, still one canonical shape.
    assert_eq!(normalize_published_at("2016-12-31T23:59:60Z").as_deref(), Some("2016-12-31T23:59:60Z"));
}
