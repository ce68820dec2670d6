use rss_intelligence::queue::{
    classify_run, route_job, run_report, FetchJob, FetchRun, JobMessage, JobResult, RoutedJob, RunReport, RunStatus,
    SourceJob, TypeField,
};

/// A message as the worker reads it from a JSON object: which fields it has,
/// what the typed readings of it give, and its JSON text.
struct Shape {
    kind: TypeField,
    version: Option<i64>,
    user_id: bool,
    source_id: bool,
    feed_id: bool,
    source_job: Option<SourceJob>,
    fetch_job: Option<FetchJob>,
    text: &'static str,
}

fn message(shape: Shape) -> JobMessage {
    JobMessage {
        kind: shape.kind,
        version: shape.version,
        version_text: shape.version.map(|v| v.to_string()),
        has_user_id: shape.user_id,
        has_source_id: shape.source_id,
        has_feed_id: shape.feed_id,
        source_job: shape.source_job,
        fetch_job: shape.fetch_job,
        text: shape.text.to_string(),
    }
}

fn feed_job(id: i64, url: &str) -> Option<FetchJob> {
    Some(FetchJob { feed_id: id, url: url.to_string() })
}

fn source_job(id: i64, user: &str, url: &str) -> Option<SourceJob> {
    Some(SourceJob { source_id: id, user_id: user.to_string(), url: url.to_string() })
}

fn typed(kind: &str) -> TypeField {
    TypeField::Text(kind.to_string())
}

#[test]
fn route_job_accepts_versioned_feed_fetch() {
    let raw = message(Shape {
        kind: typed("feed_fetch"),
        version: Some(1),
        user_id: false,
        source_id: false,
        feed_id: true,
        source_job: None,
        fetch_job: feed_job(7, "https://example.com/rss"),
        text: r#"{"feed_id":7,"run_id":1,"type":"feed_fetch","url":"https://example.com/rss","version":1}"#,
    });
    match route_job(raw) {
        RoutedJob::Feed(job) => assert_eq!(job.feed_id, 7),
        other => panic!("expected Feed, got {:?}", std::mem::discriminant(&other)),
    }
}

#[test]
fn route_job_accepts_versioned_source_fetch() {
    let raw = message(Shape {
        kind: typed("source_fetch"),
        version: Some(1),
        user_id: true,
        source_id: true,
        feed_id: false,
        source_job: source_job(9, "alice", "https://example.com/rss"),
        fetch_job: None,
        text: r#"{"run_id":1,"source_id":9,"type":"source_fetch","url":"https://example.com/rss","user_id":"alice","version":1}"#,
    });
    match route_job(raw) {
        RoutedJob::Source(job) => assert_eq!(job.source_id, 9),
        other => panic!("expected Source, got {:?}", std::mem::discriminant(&other)),
    }
}

#[test]
fn route_job_rejects_unknown_version() {
    for (version, text) in [
        (2, r#"{"feed_id":7,"type":"feed_fetch","url":"https://example.com/rss","version":2}"#),
        (0, r#"{"feed_id":7,"type":"feed_fetch","url":"https://example.com/rss","version":0}"#),
    ] {
        let raw = message(Shape {
            kind: typed("feed_fetch"),
            version: Some(version),
            user_id: false,
            source_id: false,
            feed_id: true,
            source_job: None,
            fetch_job: feed_job(7, "https://example.com/rss"),
            text,
        });
        assert!(matches!(route_job(raw), RoutedJob::Unsupported(ref r) if r.contains("version")));
    }
}

#[test]
fn route_job_rejects_typed_message_without_version() {
    let raw = message(Shape {
        kind: typed("feed_fetch"),
        version: None,
        user_id: false,
        source_id: false,
        feed_id: true,
        source_job: None,
        fetch_job: feed_job(7, "x"),
        text: r#"{"feed_id":7,"type":"feed_fetch","url":"x"}"#,
    });
    assert!(matches!(route_job(raw), RoutedJob::Unsupported(_)));
}

#[test]
fn route_job_rejects_unknown_type() {
    let raw = message(Shape {
        kind: typed("migrate_feed"),
        version: Some(1),
        user_id: false,
        source_id: false,
        feed_id: true,
        source_job: None,
        fetch_job: feed_job(7, "x"),
        text: r#"{"feed_id":7,"type":"migrate_feed","url":"x","version":1}"#,
    });
    assert!(matches!(route_job(raw), RoutedJob::Unsupported(ref r) if r.contains("type=migrate_feed")));
}

#[test]
fn route_job_rejects_malformed_typed_payload() {
    let raw = message(Shape {
        kind: typed("feed_fetch"),
        version: Some(1),
        user_id: false,
        source_id: false,
        feed_id: true,
        source_job: None,
        fetch_job: None,
        text: r#"{"feed_id":7,"type":"feed_fetch","version":1}"#,
    });
    assert!(matches!(route_job(raw), RoutedJob::Unsupported(_)));
}

#[test]
fn route_job_legacy_feed_shape_routes_by_feed_id() {
    let raw = message(Shape {
        kind: TypeField::Absent,
        version: None,
        user_id: false,
        source_id: false,
        feed_id: true,
        source_job: None,
        fetch_job: feed_job(3, "https://a.b/rss"),
        text: r#"{"feed_id":3,"run_id":5,"url":"https://a.b/rss"}"#,
    });
    assert!(matches!(route_job(raw), RoutedJob::Feed(_)));
}

#[test]
fn route_job_legacy_source_shape_routes_by_source_and_user() {
    let raw = message(Shape {
        kind: TypeField::Absent,
        version: None,
        user_id: true,
        source_id: true,
        feed_id: false,
        source_job: source_job(2, "bob", "https://a.b/rss"),
        fetch_job: None,
        text: r#"{"run_id":5,"source_id":2,"url":"https://a.b/rss","user_id":"bob"}"#,
    });
    assert!(matches!(route_job(raw), RoutedJob::Source(_)));
}

#[test]
fn route_job_drops_unparseable_legacy_jobs() {
    let only_url = message(Shape {
        kind: TypeField::Absent,
        version: None,
        user_id: false,
        source_id: false,
        feed_id: false,
        source_job: None,
        fetch_job: None,
        text: r#"{"url":"https://a.b/rss"}"#,
    });
    assert!(matches!(route_job(only_url), RoutedJob::Unsupported(_)));
    let missing_url = message(Shape {
        kind: TypeField::Absent,
        version: None,
        user_id: false,
        source_id: false,
        feed_id: true,
        source_job: None,
        fetch_job: None,
        text: r#"{"feed_id":3}"#,
    });
    assert!(matches!(route_job(missing_url), RoutedJob::Unsupported(_)));
}

#[test]
fn classify_run_returns_none_while_in_flight() {
    assert_eq!(classify_run(3, 0, 0), None);
    assert_eq!(classify_run(3, 2, 0), None);
    assert_eq!(classify_run(0, 0, 0), None);
}

#[test]
fn classify_run_all_success_is_ok() {
    assert_eq!(classify_run(2, 2, 0), Some("ok"));
    assert_eq!(classify_run(3, 3, 0), Some("ok"));
}

#[test]
fn classify_run_any_failure_is_partial_or_failed() {
    assert_eq!(classify_run(2, 1, 1), Some("partial"));
    assert_eq!(classify_run(2, 2, 1), Some("partial"));
    assert_eq!(classify_run(3, 1, 2), Some("partial"));
    assert_eq!(classify_run(2, 0, 2), Some("failed"));
}

#[test]
fn classify_run_over_count_never_flips_back_to_ok() {
    assert_eq!(classify_run(2, 2, 1), Some("partial"));
    assert_eq!(classify_run(2, 3, 0), Some("ok"));
    assert_eq!(classify_run(1, 1, 1), Some("partial"));
}

// ---- reasons, reports and the run lifecycle ---------------------------------

#[test]
fn unsupported_reasons_quote_the_message() {
    let raw = message(Shape {
        kind: TypeField::Other,
        version: Some(1),
        user_id: false,
        source_id: false,
        feed_id: true,
        source_job: None,
        fetch_job: feed_job(1, "u"),
        text: r#"{"feed_id":1,"type":5,"url":"u","version":1}"#,
    });
    match route_job(raw) {
        RoutedJob::Unsupported(r) => {
            assert_eq!(r, r#"malformed job type field: {"feed_id":1,"type":5,"url":"u","version":1}"#)
        },
        other => panic!("expected Unsupported, got {other:?}"),
    }
    let missing = message(Shape {
        kind: typed("feed_fetch"),
        version: None,
        user_id: false,
        source_id: false,
        feed_id: true,
        source_job: None,
        fetch_job: feed_job(1, "u"),
        text: "{}",
    });
    match route_job(missing) {
        RoutedJob::Unsupported(r) => assert_eq!(r, "unsupported job version=missing type=feed_fetch: {}"),
        other => panic!("expected Unsupported, got {other:?}"),
    }
    let untyped = message(Shape {
        kind: TypeField::Absent,
        version: Some(7),
        user_id: true,
        source_id: true,
        feed_id: true,
        source_job: None,
        fetch_job: feed_job(1, "u"),
        text: "{}",
    });
    match route_job(untyped) {
        RoutedJob::Unsupported(r) => assert_eq!(r, "malformed legacy source job: {}"),
        other => panic!("expected Unsupported, got {other:?}"),
    }
}

#[test]
fn run_reports_count_each_message_once() {
    let feed = RoutedJob::Feed(FetchJob { feed_id: 1, url: "u".to_string() });
    let source = RoutedJob::Source(SourceJob { source_id: 1, user_id: "a".to_string(), url: "u".to_string() });
    let dropped = RoutedJob::Unsupported("why".to_string());
    assert_eq!(run_report(&feed, JobResult::Succeeded(4)), RunReport { fetched: 1, failed: 0, inserted: 4 });
    assert_eq!(run_report(&feed, JobResult::Failed), RunReport { fetched: 0, failed: 1, inserted: 0 });
    assert_eq!(run_report(&source, JobResult::Succeeded(9)), RunReport { fetched: 1, failed: 0, inserted: 0 });
    assert_eq!(run_report(&source, JobResult::Failed), RunReport { fetched: 0, failed: 1, inserted: 0 });
    assert_eq!(run_report(&dropped, JobResult::NotRun), RunReport { fetched: 0, failed: 1, inserted: 0 });
}

#[test]
fn runs_end_once_every_job_reported_and_then_freeze() {
    let mut run = FetchRun::open();
    run.set_scheduled(2);
    run.record(RunReport { fetched: 1, failed: 0, inserted: 3 });
    assert_eq!(run.status, RunStatus::Running);
    assert!(!run.finished);
    run.record(RunReport { fetched: 0, failed: 1, inserted: 0 });
    assert_eq!(run.status, RunStatus::Partial);
    assert!(run.finished);
    assert_eq!((run.fetched, run.failed, run.inserted), (1, 1, 3));
    // A late, clean report neither re-opens the run nor turns it `ok`.
    let before = run;
    run.record(RunReport { fetched: 1, failed: 0, inserted: 5 });
    assert_eq!(run, before);
}

#[test]
fn runs_with_nothing_scheduled_end_ok_and_stale_runs_are_superseded() {
    let mut empty = FetchRun::open();
    empty.set_scheduled(0);
    assert_eq!(empty.status, RunStatus::AllOk);
    assert!(empty.finished);

    let mut stale = FetchRun::open();
    stale.set_scheduled(3);
    stale.supersede();
    assert_eq!(stale.status, RunStatus::Partial);
    assert!(stale.superseded && stale.finished);
    // Only running runs are superseded.
    let mut done = FetchRun::open();
    done.set_scheduled(1);
    done.record(RunReport { fetched: 0, failed: 1, inserted: 0 });
    assert_eq!(done.status, RunStatus::Failed);
    let before = done;
    done.supersede();
    assert_eq!(done, before);
}
