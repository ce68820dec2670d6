use rss_intelligence::feed::FeedParser;
use rss_intelligence::fetch::{backoff_minutes, DocumentFetch, DocumentStep, FetchedFeed, ResponseHead};
use rss_intelligence::refresh::{FeedRefresh, FeedRow, RefreshAction, RefreshEvent, StatusUpdate};
use rss_intelligence::urls::FeedUrl;

fn head(status: u16) -> ResponseHead {
    ResponseHead { status, location: None, etag: None, last_modified: None, content_length: None }
}

fn redirect_to(status: u16, location: &str) -> ResponseHead {
    ResponseHead { location: Some(location.to_string()), ..head(status) }
}

fn start(url: &str) -> (DocumentFetch, DocumentStep) {
    DocumentFetch::start(FeedUrl::parse(url).expect("test URL parses"))
}

fn sent(step: &DocumentStep) -> &str {
    match step {
        DocumentStep::Send(u) => u.as_str(),
        other => panic!("expected Send, got {other:?}"),
    }
}

fn failed(step: &DocumentStep) -> &str {
    match step {
        DocumentStep::Failed(m) => m.as_str(),
        other => panic!("expected Failed, got {other:?}"),
    }
}

#[test]
fn document_fetch_follows_redirects_and_reads_a_2xx_body() {
    let (mut fetch, first) = start("https://example.com/feed");
    assert_eq!(sent(&first), "https://example.com/feed");
    let next = fetch.on_head(redirect_to(301, "/moved"));
    assert_eq!(sent(&next), "https://example.com/moved");
    let ok = ResponseHead {
        etag: Some("\"abc\"".to_string()),
        last_modified: Some(String::new()),
        content_length: Some("6".to_string()),
        ..head(200)
    };
    assert!(matches!(fetch.on_head(ok), DocumentStep::ReadBody));
    assert!(fetch.awaiting_body());
    match fetch.on_body("<rss/>".to_string()) {
        DocumentStep::Done(f) => {
            assert_eq!(f.status, 200);
            assert_eq!(f.etag.as_deref(), Some("\"abc\""));
            // An empty validator is dropped.
            assert_eq!(f.last_modified, None);
            assert_eq!(f.body, "<rss/>");
        },
        other => panic!("expected Done, got {other:?}"),
    }
}

#[test]
fn document_fetch_guards_the_first_url_and_every_hop() {
    let (_, first) = start("http://localhost/feed");
    assert_eq!(failed(&first), "blocked unsafe fetch URL: http://localhost/feed");

    let (mut fetch, _) = start("https://example.com/feed");
    let hop = fetch.on_head(redirect_to(302, "http://169.254.169.254/latest"));
    assert_eq!(failed(&hop), "blocked unsafe redirect target: http://169.254.169.254/latest");
}

#[test]
fn document_fetch_stops_after_five_redirects() {
    let (mut fetch, _) = start("https://example.com/feed");
    for hop in 1..=5 {
        let next = fetch.on_head(redirect_to(307, &format!("/hop{hop}")));
        assert_eq!(sent(&next), format!("https://example.com/hop{hop}"));
    }
    let sixth = fetch.on_head(redirect_to(308, "/hop6"));
    assert_eq!(failed(&sixth), "feed redirect limit exceeded (5) from https://example.com/feed");
}

#[test]
fn document_fetch_ends_on_redirects_without_a_usable_location() {
    for location in [None, Some(""), Some("ftp://example.com/f")] {
        let (mut fetch, _) = start("https://example.com/feed");
        let h = ResponseHead { location: location.map(|l| l.to_string()), etag: Some("e".to_string()), ..head(302) };
        match fetch.on_head(h) {
            DocumentStep::Done(f) => {
                assert_eq!(f.status, 302);
                assert_eq!(f.etag, None);
                assert_eq!(f.body, "");
            },
            other => panic!("expected Done, got {other:?}"),
        }
    }
}

#[test]
fn document_fetch_never_reads_a_non_2xx_body() {
    let (mut fetch, _) = start("https://example.com/feed");
    let not_modified = ResponseHead { etag: Some("v1".to_string()), ..head(304) };
    match fetch.on_head(not_modified) {
        DocumentStep::Done(f) => {
            assert_eq!(f.status, 304);
            assert_eq!(f.etag.as_deref(), Some("v1"));
            assert_eq!(f.body, "");
        },
        other => panic!("expected Done, got {other:?}"),
    }
    // 300 is not a redirect the loop follows.
    let (mut fetch, _) = start("https://example.com/feed");
    assert!(matches!(fetch.on_head(redirect_to(300, "/elsewhere")), DocumentStep::Done(f) if f.status == 300));
}

#[test]
fn document_fetch_caps_the_response_size() {
    let (mut fetch, _) = start("https://example.com/feed");
    let declared = ResponseHead { content_length: Some("3000000".to_string()), ..head(200) };
    assert_eq!(
        failed(&fetch.on_head(declared)),
        "feed response too large: Content-Length 3000000 exceeds 2097152 bytes"
    );
    // An unreadable Content-Length is ignored; the body itself is measured.
    let (mut fetch, _) = start("https://example.com/feed");
    let odd = ResponseHead { content_length: Some("lots".to_string()), ..head(200) };
    assert!(matches!(fetch.on_head(odd), DocumentStep::ReadBody));
    let big = "a".repeat(2 * 1024 * 1024 + 1);
    assert_eq!(failed(&fetch.on_body(big)), "feed response too large: 2097153 bytes exceeds 2097152 bytes");
}

#[test]
fn backoff_doubles_per_failure_within_bounds() {
    assert_eq!(backoff_minutes(30, 0), 30);
    assert_eq!(backoff_minutes(30, 1), 60);
    assert_eq!(backoff_minutes(30, 3), 240);
    assert_eq!(backoff_minutes(30, 10), 1440);
    assert_eq!(backoff_minutes(2, 0), 5);
    assert_eq!(backoff_minutes(0, -3), 5);
    assert_eq!(backoff_minutes(2000, 1), 1440);
}

const TWO_ITEMS: &str = r#"<rss><channel>
<item><title>A</title><link>https://example.com/a</link></item>
<item><title>B</title><link>https://example.com/b</link></item>
</channel></rss>"#;

fn row(id: Option<i64>) -> FeedRow {
    FeedRow {
        id,
        fetch_interval_minutes: Some(30),
        consecutive_failures: Some(2),
        etag: Some("e1".to_string()),
        last_modified: Some(String::new()),
    }
}

fn fetched(status: u16, body: &str) -> RefreshEvent {
    RefreshEvent::Fetched(Ok(FetchedFeed {
        status,
        etag: Some("e2".to_string()),
        last_modified: Some("Tue, 01 Sep 2026 10:00:00 GMT".to_string()),
        body: body.to_string(),
    }))
}

fn begun() -> FeedRefresh {
    let (m, action) = FeedRefresh::begin("https://example.com/feed", Some(row(Some(5))));
    match action {
        RefreshAction::FetchDocument { url, headers } => {
            assert_eq!(url.as_str(), "https://example.com/feed");
            // Only non-empty validators are sent back.
            assert_eq!(headers, vec![("If-None-Match".to_string(), "e1".to_string())]);
        },
        _ => panic!("expected FetchDocument"),
    }
    let m = m.expect("refresh started");
    assert_eq!(m.feed_id(), 5);
    m
}

#[test]
fn refresh_stores_new_articles_and_records_success() {
    let mut m = begun();
    assert!(matches!(m.step(fetched(200, TWO_ITEMS)), RefreshAction::CountArticles));
    assert!(matches!(m.step(RefreshEvent::Counted(Some(10))), RefreshAction::CheckSubscribed));
    match m.step(RefreshEvent::Subscribed(true)) {
        RefreshAction::InsertArticles(a) => {
            assert_eq!(a.len(), 2);
            assert_eq!(a[0].feed_id, 5);
            assert_eq!(a[1].title, "B");
        },
        _ => panic!("expected InsertArticles"),
    }
    assert!(matches!(m.step(RefreshEvent::Inserted), RefreshAction::CountArticles));
    match m.step(RefreshEvent::Counted(Some(12))) {
        RefreshAction::RecordStatus(StatusUpdate::Success { http_status, etag, last_modified, next_fetch_in_minutes }) => {
            assert_eq!(http_status, 200);
            assert_eq!(etag.as_deref(), Some("e2"));
            assert_eq!(last_modified.as_deref(), Some("Tue, 01 Sep 2026 10:00:00 GMT"));
            assert_eq!(next_fetch_in_minutes, 30);
        },
        _ => panic!("expected a success record"),
    }
    assert!(matches!(m.step(RefreshEvent::StatusRecorded), RefreshAction::Finish(Ok(2))));
}

#[test]
fn refresh_treats_not_modified_as_success_without_parsing() {
    let mut m = begun();
    match m.step(fetched(304, "")) {
        RefreshAction::RecordStatus(StatusUpdate::Success { http_status, etag, last_modified, next_fetch_in_minutes }) => {
            assert_eq!(http_status, 304);
            // The validators that were sent are kept, not the answer's.
            assert_eq!(etag.as_deref(), Some("e1"));
            assert_eq!(last_modified.as_deref(), Some(""));
            assert_eq!(next_fetch_in_minutes, 30);
        },
        _ => panic!("expected a success record"),
    }
    assert!(matches!(m.step(RefreshEvent::StatusRecorded), RefreshAction::Finish(Ok(0))));
}

#[test]
fn refresh_records_http_errors_with_backoff() {
    let mut m = begun();
    match m.step(fetched(503, "")) {
        RefreshAction::RecordStatus(StatusUpdate::Failure { http_status, error_message, consecutive_failures, next_fetch_in_minutes }) => {
            assert_eq!(http_status, 503);
            assert_eq!(error_message, "feed returned HTTP 503");
            assert_eq!(consecutive_failures, 3);
            assert_eq!(next_fetch_in_minutes, 240);
        },
        _ => panic!("expected a failure record"),
    }
    match m.step(RefreshEvent::StatusRecorded) {
        RefreshAction::Finish(Err(e)) => assert_eq!(e, "feed returned HTTP 503"),
        _ => panic!("expected the HTTP error"),
    }
}

#[test]
fn refresh_records_parse_errors() {
    let mut m = begun();
    m.step(fetched(200, "<rss><channel><item><title>x</item></channel></rss>"));
    match m.step(RefreshEvent::Counted(None)) {
        RefreshAction::RecordStatus(StatusUpdate::Failure { http_status, consecutive_failures, .. }) => {
            assert_eq!(http_status, 200);
            assert_eq!(consecutive_failures, 3);
        },
        _ => panic!("expected a failure record"),
    }
    assert!(matches!(m.step(RefreshEvent::StatusRecorded), RefreshAction::Finish(Err(_))));
}

#[test]
fn refresh_skips_storage_once_nobody_subscribes() {
    let mut m = begun();
    m.step(fetched(200, TWO_ITEMS));
    m.step(RefreshEvent::Counted(Some(0)));
    assert!(matches!(m.step(RefreshEvent::Subscribed(false)), RefreshAction::Finish(Ok(0))));
}

#[test]
fn refresh_stores_at_most_twenty_five_articles() {
    let mut body = String::from("<rss><channel>");
    for i in 0..30 {
        body.push_str(&format!("<item><title>T{i}</title><link>https://example.com/{i}</link></item>"));
    }
    body.push_str("</channel></rss>");
    let mut m = begun();
    m.step(fetched(200, &body));
    m.step(RefreshEvent::Counted(Some(0)));
    match m.step(RefreshEvent::Subscribed(true)) {
        RefreshAction::InsertArticles(a) => {
            assert_eq!(a.len(), 25);
            assert_eq!(a[24].title, "T24");
        },
        _ => panic!("expected InsertArticles"),
    }
}

#[test]
fn refresh_refuses_missing_feeds_ids_and_urls() {
    assert!(matches!(
        FeedRefresh::begin("https://example.com/feed", None),
        (None, RefreshAction::Finish(Err(ref e))) if e == "feed not found or has no subscribers"
    ));
    assert!(matches!(
        FeedRefresh::begin("https://example.com/feed", Some(row(None))),
        (None, RefreshAction::Finish(Err(ref e))) if e == "feed id missing"
    ));
    assert!(matches!(
        FeedRefresh::begin("not a url", Some(row(Some(5)))),
        (None, RefreshAction::Finish(Err(ref e))) if e == "relative URL without a base"
    ));
    let mut m = begun();
    assert!(matches!(
        m.step(RefreshEvent::Fetched(Err("timed out".to_string()))),
        RefreshAction::Finish(Err(ref e)) if e == "timed out"
    ));
}

#[test]
fn fetched_documents_parse_only_on_2xx() {
    let not_found = FetchedFeed { status: 404, etag: None, last_modified: None, body: String::new() };
    assert_eq!(FeedParser::articles_from_fetch(not_found), Err("feed returned HTTP 404".to_string()));
    let ok = FetchedFeed { status: 200, etag: None, last_modified: None, body: TWO_ITEMS.to_string() };
    let articles = FeedParser::articles_from_fetch(ok).expect("parses");
    assert_eq!(articles.len(), 2);
    assert_eq!(articles[0].feed_id, 0);
}

#[test]
fn failure_bookkeeping_must_fit_in_i64() {
    assert!(row(Some(1)).fits());
    let worn_out = FeedRow { consecutive_failures: Some(i64::MAX), ..row(Some(1)) };
    assert!(!worn_out.fits());
    let huge_interval = FeedRow { fetch_interval_minutes: Some(i64::MAX / 2), ..row(Some(1)) };
    assert!(!huge_interval.fits());
    let defaults = FeedRow { fetch_interval_minutes: None, consecutive_failures: None, ..row(Some(1)) };
    assert!(defaults.fits());
}

#[test]
fn document_fetch_returns_non_2xx_whatever_length_it_declares() {
    let (mut fetch, _) = start("https://example.com/feed");
    let not_modified = ResponseHead {
        etag: Some("v1".to_string()),
        content_length: Some("3000000".to_string()),
        ..head(304)
    };
    match fetch.on_head(not_modified) {
        DocumentStep::Done(f) => {
            assert_eq!(f.status, 304);
            assert_eq!(f.etag.as_deref(), Some("v1"));
            assert_eq!(f.body, "");
        },
        other => panic!("expected Done, got {other:?}"),
    }
    let (mut fetch, _) = start("https://example.com/feed");
    let missing = ResponseHead { content_length: Some("9999999".to_string()), ..head(404) };
    assert!(matches!(fetch.on_head(missing), DocumentStep::Done(f) if f.status == 404 && f.body.is_empty()));
}

#[test]
fn refresh_success_schedules_after_the_feeds_own_interval() {
    let short = FeedRow { fetch_interval_minutes: Some(5), ..row(Some(9)) };
    let (m, _) = FeedRefresh::begin("https://example.com/feed", Some(short));
    let mut m = m.expect("refresh started");
    match m.step(fetched(304, "")) {
        RefreshAction::RecordStatus(StatusUpdate::Success { next_fetch_in_minutes, .. }) => {
            assert_eq!(next_fetch_in_minutes, 5);
        },
        _ => panic!("expected a success record"),
    }
}
