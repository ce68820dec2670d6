use rss_intelligence::api::is_allowed_origin;
#[test]
fn allowed_origins_match_exactly() {
    assert!(is_allowed_origin("https://rss-intelligence.pages.dev"));
    assert!(is_allowed_origin("http://localhost:4321"));
    assert!(is_allowed_origin("http://127.0.0.1:4321"));
}

#[test]
fn disallowed_origins_are_rejected() {
    assert!(!is_allowed_origin("https://evil.example"));
    // Prefix of an allowed host must not slip through (exact match).
    assert!(!is_allowed_origin("https://sub.rss-intelligence.pages.dev"));
    assert!(!is_allowed_origin("https://rss-intelligence.pages.dev.evil.com"));
    // Wrong / missing port and unrelated hosts.
    assert!(!is_allowed_origin("http://localhost"));
    assert!(!is_allowed_origin("http://localhost:4322"));
    assert!(!is_allowed_origin("https://rss-worker-production.weixc0856.workers.dev"));
    assert!(!is_allowed_origin(""));
}
