use rss_intelligence::identity::normalize_device_key;
#[test]
fn accepts_a_plain_uuid() {
    assert_eq!(
        normalize_device_key("3f0c7d7a-8b5e-4f2a-9c1d-2e4f6a8b0c1d").as_deref(),
        Some("3f0c7d7a-8b5e-4f2a-9c1d-2e4f6a8b0c1d")
    );
}

#[test]
fn trims_surrounding_whitespace() {
    assert_eq!(normalize_device_key("  abc-123  ").as_deref(), Some("abc-123"));
    assert_eq!(normalize_device_key("\tabc-123\n").as_deref(), Some("abc-123"));
}

#[test]
fn rejects_blank_keys() {
    assert_eq!(normalize_device_key(""), None);
    assert_eq!(normalize_device_key("   "), None);
    assert_eq!(normalize_device_key("\t\n"), None);
}

#[test]
fn rejects_overlong_keys() {
    // 129 bytes — the cap is an abuse guard, not a realistic device key.
    let long = "k".repeat(129);
    assert_eq!(normalize_device_key(&long), None);
    // Exactly at the cap is still acceptable.
    assert_eq!(normalize_device_key(&"k".repeat(128)).map(|s| s.len()), Some(128));
}
