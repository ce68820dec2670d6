use rss_intelligence::feed::{attribute, local_name, FeedParser, XmlEvent, XmlEvents};
use rss_intelligence::fetch::is_redirect_status;
// RSS 2.0 fixture, deliberately pretty-printed (whitespace + namespaces)
// to exercise realistic feeds.
const RSS_SAMPLE: &str = r#"<?xml version="1.0" encoding="UTF-8"?>
<rss version="2.0" xmlns:content="http://purl.org/rss/1.0/modules/content/">
  <channel>
<title>Example Blog</title>
<link>https://example.com/</link>
<description>Example blog channel</description>
<item>
  <title>First Post &amp; News</title>
  <link>https://example.com/first</link>
  <guid isPermaLink="false">post-1</guid>
  <description>A &lt;b&gt;short&lt;/b&gt; summary &amp; more</description>
  <content:encoded><![CDATA[<p>Full content here &amp; raw CDATA</p>]]></content:encoded>
  <pubDate>Tue, 01 Sep 2026 10:20:30 GMT</pubDate>
</item>
<item>
  <title>Second Post</title>
  <link>https://example.com/second</link>
  <description>Second summary</description>
  <pubDate>Wed, 02 Sep 2026 08:00:00 GMT</pubDate>
</item>
  </channel>
</rss>
"#;

// Atom fixture: links come from href attributes, entries use id/published.
const ATOM_SAMPLE: &str = r#"<?xml version="1.0" encoding="utf-8"?>
<feed xmlns="http://www.w3.org/2005/Atom">
  <title>Example Atom Feed</title>
  <id>urn:uuid:feed-root</id>
  <updated>2026-09-02T12:00:00Z</updated>
  <link href="https://example.com/atom"/>
  <entry>
<title>Atom Entry One</title>
<id>urn:uuid:entry-1</id>
<link href="https://example.com/entry-1?page=1&amp;lang=en"/>
<summary>Atom summary one</summary>
<published>2026-08-15T09:30:00Z</published>
  </entry>
  <entry>
<title>Atom Entry Two</title>
<id>urn:uuid:entry-2</id>
<link rel="alternate" type="text/html" href="https://example.com/entry-2"/>
<content type="html">Atom &lt;b&gt;content&lt;/b&gt; two</content>
<updated>2026-09-01T07:00:00Z</updated>
  </entry>
</feed>
"#;

#[test]
fn parse_rss_returns_all_items_with_fields() {
    let articles = FeedParser::parse_rss(RSS_SAMPLE, 42).expect("valid RSS should parse");

    assert_eq!(articles.len(), 2, "expected two RSS items");

    let first = &articles[0];
    // Text is XML-unescaped.
    assert_eq!(first.title, "First Post & News");
    assert_eq!(first.link, "https://example.com/first");
    assert_eq!(first.guid, "post-1");
    assert_eq!(first.summary.as_deref(), Some("A <b>short</b> summary & more"));
    // CDATA content is captured verbatim (only encoding, not XML, is decoded).
    assert_eq!(
        first.content.as_deref(),
        Some("<p>Full content here &amp; raw CDATA</p>")
    );
    assert_eq!(
        first.published_at.as_deref(),
        // RSS pubDate is normalized to canonical UTC ISO at the write choke
        // point — NOT kept as feed-native RFC822 text.
        Some("2026-09-01T10:20:30Z")
    );
    assert_eq!(first.id, 0);
    assert_eq!(first.feed_id, 42);

    let second = &articles[1];
    assert_eq!(second.title, "Second Post");
    assert_eq!(second.link, "https://example.com/second");
    // RSS item without <guid> falls back to <link>.
    assert_eq!(second.guid, second.link);
    assert_eq!(second.content, None);
    assert_eq!(
        second.published_at.as_deref(),
        Some("2026-09-02T08:00:00Z")
    );
}

/// Write-contract test: whatever the feed-native shape, the stored
/// `published_at` must be canonical `YYYY-MM-DDTHH:MM:SSZ` (string sort ==
/// time sort). An offset pubDate is shifted to UTC, so the row's true time
/// ordering survives a lexicographic `ORDER BY published_at DESC`.
#[test]
fn parse_rss_normalizes_pubdate_to_canonical_utc_iso() {
    let xml = r#"<?xml version="1.0"?>
<rss version="2.0"><channel>
  <item>
<title>Earlier in real time (12:00 +05:30 = 06:30Z)</title>
<link>https://example.com/a</link>
<pubDate>Wed, 02 Sep 2026 12:00:00 +0530</pubDate>
  </item>
  <item>
<title>Later in real time (12:00 GMT)</title>
<link>https://example.com/b</link>
<pubDate>Wed, 02 Sep 2026 12:00:00 GMT</pubDate>
  </item>
  <item>
<title>No pubDate at all — published_at stays None</title>
<link>https://example.com/c</link>
  </item>
</channel></rss>"#;
    let articles = FeedParser::parse_rss(xml, 1).expect("parse");
    assert_eq!(
        articles[0].published_at.as_deref(),
        Some("2026-09-02T06:30:00Z")
    );
    assert_eq!(
        articles[1].published_at.as_deref(),
        Some("2026-09-02T12:00:00Z")
    );
    assert_eq!(articles[2].published_at, None);
    // 06:30Z happened before 12:00Z, and the canonical strings agree.
    assert!(
        articles[0].published_at < articles[1].published_at,
        "canonical lexicographic order must match real time order"
    );
}

/// Write-contract, None path: an unparseable pubDate is preserved verbatim
/// (never dropped, never guessed) — the article still stores, but the row
/// carries no sortable-time guarantee.
#[test]
fn parse_rss_keeps_unparseable_pubdate_verbatim() {
    let xml = r#"<?xml version="1.0"?>
<rss version="2.0"><channel>
  <item>
<title>Odd date</title>
<link>https://example.com/odd</link>
<pubDate>not a real date</pubDate>
  </item>
</channel></rss>"#;
    let articles = FeedParser::parse_rss(xml, 1).expect("parse");
    assert_eq!(articles.len(), 1);
    assert_eq!(
        articles[0].published_at.as_deref(),
        Some("not a real date"),
        "unparseable pubDate must be preserved, not dropped or guessed"
    );
}

/// Write-contract for Atom: fractional-second <published> and offset
/// <updated> collapse to the same whole-second canonical form RSS gets.
#[test]
fn parse_atom_normalizes_fractional_and_offset_timestamps() {
    let xml = r#"<?xml version="1.0"?>
<feed xmlns="http://www.w3.org/2005/Atom">
  <title>Fractional Atom</title>
  <link href="https://example.com/atom"/>
  <entry>
<title>Fractional published</title>
<id>urn:uuid:f-1</id>
<link href="https://example.com/f1"/>
<published>2026-09-02T08:30:15.250Z</published>
  </entry>
  <entry>
<title>Offset updated</title>
<id>urn:uuid:f-2</id>
<link href="https://example.com/f2"/>
<updated>2026-09-02T14:30:00+02:00</updated>
  </entry>
</feed>"#;
    let articles = FeedParser::parse_atom(xml, 9).expect("parse");
    assert_eq!(articles.len(), 2);
    assert_eq!(
        articles[0].published_at.as_deref(),
        Some("2026-09-02T08:30:15Z")
    );
    assert_eq!(
        articles[1].published_at.as_deref(),
        Some("2026-09-02T12:30:00Z")
    );
}

#[test]
fn parse_rss_sets_dedupe_hash_per_item() {
    let articles = FeedParser::parse_rss(RSS_SAMPLE, 42).expect("parse");
    for article in &articles {
        let expected = FeedParser::generate_article_hash(&article.title, &article.link);
        assert_eq!(article.hash, expected);
        assert_eq!(article.hash.len(), 32, "md5 hex must be 32 chars");
        assert!(article.hash.chars().all(|c| c.is_ascii_hexdigit()));
    }
    assert_ne!(articles[0].hash, articles[1].hash, "different items -> different hashes");
}

#[test]
fn parse_rss_skips_items_missing_title_or_link() {
    let xml = r#"<?xml version="1.0"?>
<rss version="2.0"><channel>
  <item>
<title>Complete Item</title>
<link>https://example.com/ok</link>
<description>kept</description>
  </item>
  <item>
<title>Title only, no link</title>
  </item>
  <item>
<link>https://example.com/link-only</link>
  </item>
  <item>
<description>Neither title nor link</description>
  </item>
</channel></rss>"#;

    let articles = FeedParser::parse_rss(xml, 1).expect("parse");
    assert_eq!(articles.len(), 1);
    assert_eq!(articles[0].title, "Complete Item");
    assert_eq!(articles[0].link, "https://example.com/ok");
}

#[test]
fn parse_atom_parses_entries_and_unescapes_href() {
    let articles = FeedParser::parse_atom(ATOM_SAMPLE, 7).expect("valid Atom should parse");

    assert_eq!(articles.len(), 2, "expected two Atom entries");

    let first = &articles[0];
    assert_eq!(first.title, "Atom Entry One");
    // Atom link is taken from the href attribute and &amp; is decoded.
    assert_eq!(first.link, "https://example.com/entry-1?page=1&lang=en");
    assert_eq!(first.guid, "urn:uuid:entry-1");
    assert_eq!(first.summary.as_deref(), Some("Atom summary one"));
    assert_eq!(first.published_at.as_deref(), Some("2026-08-15T09:30:00Z"));
    assert_eq!(first.content, None);
    assert_eq!(first.feed_id, 7);

    let second = &articles[1];
    assert_eq!(second.title, "Atom Entry Two");
    assert_eq!(second.guid, "urn:uuid:entry-2");
    assert_eq!(second.link, "https://example.com/entry-2");
    assert_eq!(second.summary, None);
    assert_eq!(second.content.as_deref(), Some("Atom <b>content</b> two"));
    // Feed-level <updated> must NOT leak into the entry; entry <updated> wins.
    assert_eq!(second.published_at.as_deref(), Some("2026-09-01T07:00:00Z"));
}

#[test]
fn parse_rss_handles_cdata_and_escaped_text_consistently() {
    let xml = r#"<?xml version="1.0"?>
<rss version="2.0"><channel>
  <item>
<title>CDATA Item</title>
<link>https://example.com/cdata</link>
<description><![CDATA[raw <em>html</em> & text]]></description>
<content:encoded><![CDATA[<div>block</div>]]></content:encoded>
  </item>
  <item>
<title>Escaped Item</title>
<link>https://example.com/escaped</link>
<description>escaped &lt;em&gt;html&lt;/em&gt; &amp; text</description>
  </item>
</channel></rss>"#;

    let articles = FeedParser::parse_rss(xml, 3).expect("parse");
    assert_eq!(articles.len(), 2);

    // CDATA is not entity-unescaped (contents are already literal).
    assert_eq!(articles[0].summary.as_deref(), Some("raw <em>html</em> & text"));
    assert_eq!(articles[0].content.as_deref(), Some("<div>block</div>"));

    // Regular escaped text IS unescaped.
    assert_eq!(
        articles[1].summary.as_deref(),
        Some("escaped <em>html</em> & text")
    );
}

#[test]
fn parse_rss_handles_numeric_character_references() {
    let xml = r#"<?xml version="1.0"?>
<rss version="2.0"><channel>
  <item>
<title>&#65;mpersand &#38; friends</title>
<link>https://example.com/numeric</link>
<description>&#x41;&#x26;B</description>
  </item>
</channel></rss>"#;

    let articles = FeedParser::parse_rss(xml, 1).expect("parse");
    assert_eq!(articles.len(), 1);
    assert_eq!(articles[0].title, "Ampersand & friends");
    assert_eq!(articles[0].summary.as_deref(), Some("A&B"));
}

#[test]
fn parse_rss_returns_error_on_malformed_xml() {
    // Mismatched closing tags are rejected by quick-xml (check_end_names).
    let malformed =
        r#"<rss version="2.0"><channel><item><title>Broken</item></channel></rss>"#;
    let result = FeedParser::parse_rss(malformed, 1);
    assert!(result.is_err(), "mismatched tags should produce an error");
}

#[test]
fn parse_rss_empty_input_yields_no_articles() {
    assert_eq!(FeedParser::parse_rss("", 1).expect("empty is ok"), Vec::new());
    assert_eq!(
        FeedParser::parse_rss("not xml at all", 1).expect("plain text is ok"),
        Vec::new()
    );
    assert_eq!(
        FeedParser::parse_rss(
            r#"<rss version="2.0"><channel><title>x</title></channel></rss>"#,
            1
        )
        .expect("channel without items is ok"),
        Vec::new()
    );
}

#[test]
fn article_hash_is_standard_md5_hex() {
    // md5("foobar") = 3858f62230ac3c915f300c664312c63f
    assert_eq!(
        FeedParser::generate_article_hash("foo", "bar"),
        "3858f62230ac3c915f300c664312c63f"
    );
    // Deterministic for identical input.
    assert_eq!(
        FeedParser::generate_article_hash("foo", "bar"),
        FeedParser::generate_article_hash("foo", "bar")
    );
    // Sensitive to either input component.
    assert_ne!(
        FeedParser::generate_article_hash("foo", "bar"),
        FeedParser::generate_article_hash("foo", "baz")
    );
    assert_ne!(
        FeedParser::generate_article_hash("foo", "bar"),
        FeedParser::generate_article_hash("fooo", "bar")
    );
}

#[test]
fn local_name_strips_xml_namespace_prefixes() {
    assert_eq!(local_name(b"content:encoded"), "encoded");
    assert_eq!(local_name(b"dc:creator"), "creator");
    assert_eq!(local_name(b"item"), "item");
    assert_eq!(local_name(b"entry"), "entry");
    // Invalid UTF-8 gracefully degrades to "".
    assert_eq!(local_name(&[0xff, 0xfe]), "");
}

#[test]
fn attribute_returns_requested_attr_and_unescapes() {
    let xml = r#"<item href="https://example.com/a&amp;b" missing="x">"#;
    let mut reader = XmlEvents::open(xml);
    let event = reader.next();
    let XmlEvent::Start(start, name_len) = event else {
        panic!("expected Start event");
    };

    assert_eq!(attribute(&start, name_len, b"href"), "https://example.com/a&b");
    // Absent attributes yield the empty string.
    assert_eq!(attribute(&start, name_len, b"rel"), "");
}

#[test]
fn attribute_matching_is_case_sensitive() {
    let xml = r#"<entry HREF="https://example.com/upper" href="https://example.com/lower">"#;
    let mut reader = XmlEvents::open(xml);
    let event = reader.next();
    let XmlEvent::Start(start, name_len) = event else {
        panic!("expected Start event");
    };
    assert_eq!(attribute(&start, name_len, b"href"), "https://example.com/lower");
}

/// Only the redirect statuses the manual loop follows (301/302/303/307/308)
/// count as redirects. 300 is Multiple Choices (no automatic follow),
/// 304 is a terminal Not Modified, and everything else is a normal outcome.
#[test]
fn is_redirect_status_classifies_status_codes() {
    for status in [301u16, 302, 303, 307, 308] {
        assert!(is_redirect_status(status), "{status} must be a redirect");
    }
    for status in [200u16, 201, 204, 300, 304, 400, 404, 410, 500, 503] {
        assert!(!is_redirect_status(status), "{status} must NOT be a redirect");
    }
}
