//! URLs: the canonical identity of a feed URL, the lexical guard every
//! outbound fetch goes through, and redirect resolution.
//!
//! Parsing and joining are done by the `url` crate; what the library reads of
//! a parsed URL is held in [`FeedUrl`] as plain values.
use vstd::prelude::*;
use url::Host;
use crate::digits::decimal;
use crate::text::{chars_of, ends_with, is_text, push_char, push_str, strip_trailing, trim};

verus! {

#[verifier::external_type_specification]
#[verifier::external_body]
pub struct ExUrl(url::Url);

/// The host of a URL as the guard reads it.
#[derive(Clone, Debug, PartialEq, Eq)]
pub enum UrlHost {
    Domain(String),
    Ipv4([u8; 4]),
    Ipv6([u16; 8]),
}

pub enum HostView {
    Domain(Seq<char>),
    Ipv4(Seq<u8>),
    Ipv6(Seq<u16>),
}

impl View for UrlHost {
    type V = HostView;

    open spec fn view(&self) -> HostView {
        match self {
            UrlHost::Domain(d) => HostView::Domain(d@),
            UrlHost::Ipv4(o) => HostView::Ipv4(o@),
            UrlHost::Ipv6(s) => HostView::Ipv6(s@),
        }
    }
}

/// A parsed URL: the parsed value itself, and the parts of it that the
/// library's rules read.
pub struct FeedUrl {
    inner: url::Url,
    href: String,
    scheme: String,
    host: Option<UrlHost>,
    host_text: Option<String>,
    port: Option<u16>,
    path: String,
    query: Option<String>,
}

/// The parts of a parsed URL: its serialization (`as_str`), `scheme`,
/// `host`, `host_str`, `port` (none for the scheme's default port), `path` and
/// `query`.
pub struct UrlView {
    pub href: Seq<char>,
    pub scheme: Seq<char>,
    pub host: Option<HostView>,
    pub host_text: Option<Seq<char>>,
    pub port: Option<u16>,
    pub path: Seq<char>,
    pub query: Option<Seq<char>>,
}

pub open spec fn opt_seq(o: Option<String>) -> Option<Seq<char>> {
    match o {
        Some(s) => Some(s@),
        None => None,
    }
}

pub open spec fn opt_host(o: Option<UrlHost>) -> Option<HostView> {
    match o {
        Some(h) => Some(h@),
        None => None,
    }
}

impl View for FeedUrl {
    type V = UrlView;

    closed spec fn view(&self) -> UrlView {
        UrlView {
            href: self.href@,
            scheme: self.scheme@,
            host: opt_host(self.host),
            host_text: opt_seq(self.host_text),
            port: self.port,
            path: self.path@,
            query: opt_seq(self.query),
        }
    }
}

pub open spec fn opt_url(o: Option<FeedUrl>) -> Option<UrlView> {
    match o {
        Some(u) => Some(u@),
        None => None,
    }
}

/// What `url::Url::parse` yields for a text: the parsed URL by its parts, or
/// the text of the parse error (`ParseError`'s `Display`).
pub uninterp spec fn url_parse_result(s: Seq<char>) -> Result<UrlView, Seq<char>>;

/// What `url::Url::join` yields for a base URL and a reference, by its parts.
pub uninterp spec fn url_join_result(base: UrlView, reference: Seq<char>) -> Option<UrlView>;

/// The name/value pairs `url::Url::query_pairs` decodes from a URL's query
/// (`application/x-www-form-urlencoded`).
pub uninterp spec fn url_query_pairs(u: UrlView) -> Seq<(Seq<char>, Seq<char>)>;

/// What `str::to_lowercase` yields (the Unicode lowercase mapping).
pub uninterp spec fn unicode_lowercase(s: Seq<char>) -> Seq<char>;

impl FeedUrl {
    /// Parses an absolute URL with `url::Url::parse`; the result (or the
    /// error's text) is named by `url_parse_result`.
    #[verifier::external_body]
    pub fn parse(s: &str) -> (r: Result<FeedUrl, String>)
        ensures
            match r {
                Ok(u) => url_parse_result(s@) == Ok::<UrlView, Seq<char>>(u@),
                Err(e) => url_parse_result(s@) == Err::<UrlView, Seq<char>>(e@),
            },
    {
        let u = url::Url::parse(s).map_err(|e| e.to_string())?;
        let host = u.host().map(|h| match h {
            Host::Domain(d) => UrlHost::Domain(d.to_string()),
            Host::Ipv4(a) => UrlHost::Ipv4(a.octets()),
            Host::Ipv6(a) => UrlHost::Ipv6(a.segments()),
        });
        Ok(FeedUrl { href: u.as_str().to_string(), scheme: u.scheme().to_string(), host,
            host_text: u.host_str().map(str::to_string), port: u.port(), path: u.path().to_string(),
            query: u.query().map(str::to_string), inner: u })
    }

    /// Resolves a reference against this URL with `url::Url::join`; the result
    /// is named by `url_join_result`.
    #[verifier::external_body]
    pub fn join(&self, reference: &str) -> (r: Option<FeedUrl>)
        ensures
            opt_url(r) == url_join_result(self@, reference@),
    {
        let u = self.inner.join(reference).ok()?;
        let host = u.host().map(|h| match h {
            Host::Domain(d) => UrlHost::Domain(d.to_string()),
            Host::Ipv4(a) => UrlHost::Ipv4(a.octets()),
            Host::Ipv6(a) => UrlHost::Ipv6(a.segments()),
        });
        Some(FeedUrl { href: u.as_str().to_string(), scheme: u.scheme().to_string(), host,
            host_text: u.host_str().map(str::to_string), port: u.port(), path: u.path().to_string(),
            query: u.query().map(str::to_string), inner: u })
    }

    /// The decoded pairs of the query (`Url::query_pairs`), named by
    /// `url_query_pairs`; a URL without a query has none (the query is then
    /// parsed as the empty text, which holds no pair).
    #[verifier::external_body]
    pub fn query_pairs(&self) -> (r: Vec<(String, String)>)
        ensures
            r@.map_values(|p: (String, String)| (p.0@, p.1@)) == url_query_pairs(self@),
            self@.query is None ==> r@.len() == 0,
    {
        self.inner.query_pairs().map(|(k, v)| (k.into_owned(), v.into_owned())).collect()
    }

    /// The serialization of the URL (`Url::as_str`).
    pub fn as_str(&self) -> (r: &str)
        ensures
            r@ == self@.href,
    {
        self.href.as_str()
    }

    pub fn scheme(&self) -> (r: &str)
        ensures
            r@ == self@.scheme,
    {
        self.scheme.as_str()
    }

    pub fn host(&self) -> (r: &Option<UrlHost>)
        ensures
            opt_host(*r) == self@.host,
    {
        &self.host
    }

    pub fn host_str(&self) -> (r: Option<&str>)
        ensures
            match r {
                Some(h) => self@.host_text == Some(h@),
                None => self@.host_text is None,
            },
    {
        match &self.host_text {
            Some(h) => Some(h.as_str()),
            None => None,
        }
    }

    pub fn port(&self) -> (r: Option<u16>)
        ensures
            r == self@.port,
    {
        self.port
    }

    pub fn path(&self) -> (r: &str)
        ensures
            r@ == self@.path,
    {
        self.path.as_str()
    }

    pub fn query(&self) -> (r: Option<&str>)
        ensures
            match r {
                Some(q) => self@.query == Some(q@),
                None => self@.query is None,
            },
    {
        match &self.query {
            Some(q) => Some(q.as_str()),
            None => None,
        }
    }
}

/// ASCII lower-casing of one character (`to_ascii_lowercase`).
pub open spec fn ascii_lower(c: char) -> char {
    if 'A' <= c && c <= 'Z' {
        ((c as u32) + 32) as char
    } else {
        c
    }
}

pub open spec fn is_ascii_text(s: Seq<char>) -> bool {
    forall|i: int| 0 <= i < s.len() ==> (s[i] as u32) < 128
}

/// `str::to_lowercase`. Claimed of std: the result is the Unicode lowercase
/// mapping, named `unicode_lowercase`; on ASCII text it is the ASCII
/// lower-casing of each character.
#[verifier::external_body]
pub fn to_lowercase(s: &str) -> (r: String)
    ensures
        r@ == unicode_lowercase(s@),
        is_ascii_text(s@) ==> r@ == s@.map_values(|c: char| ascii_lower(c)),
{
    s.to_lowercase()
}


// ---------------------------------------------------------------------------
// canonical feed identity

pub open spec fn lit_http() -> Seq<char> {
    seq!['h', 't', 't', 'p']
}

pub open spec fn lit_https() -> Seq<char> {
    seq!['h', 't', 't', 'p', 's']
}

pub open spec fn is_http_scheme(s: Seq<char>) -> bool {
    s == lit_http() || s == lit_https()
}

/// The port as written in a canonical URL: `:port` for a non-default port.
pub open spec fn port_text(scheme: Seq<char>, port: Option<u16>) -> Seq<char> {
    match port {
        Some(p) => if (scheme == lit_http() && p == 80) || (scheme == lit_https() && p == 443) {
            Seq::empty()
        } else {
            seq![':'] + decimal(p as nat)
        },
        None => Seq::empty(),
    }
}

/// The path with trailing slashes stripped, except a lone `/`.
pub open spec fn canonical_path(path: Seq<char>) -> Seq<char> {
    if path.len() > 1 && path.last() == '/' {
        strip_trailing(path, '/')
    } else {
        path
    }
}

pub open spec fn query_text(q: Option<Seq<char>>) -> Seq<char> {
    match q {
        Some(q) => seq!['?'] + q,
        None => Seq::empty(),
    }
}

/// The canonical identity of a feed URL: lower-cased scheme and host, default
/// port dropped, fragment and user info removed, trailing `/` stripped from
/// the path (a lone `/` kept), query kept. A text that does not parse as a URL
/// is only trimmed of trailing `/`.
pub open spec fn canonical_url_text(raw: Seq<char>) -> Seq<char> {
    let t = trim(raw);
    match url_parse_result(t) {
        Ok(u) => {
            let scheme = unicode_lowercase(u.scheme);
            let host = match u.host_text {
                Some(h) => unicode_lowercase(h),
                None => Seq::empty(),
            };
            scheme + seq![':', '/', '/'] + host + port_text(scheme, u.port) + canonical_path(u.path)
                + query_text(u.query)
        },
        Err(_) => strip_trailing(t, '/'),
    }
}

fn push_port(out: &mut String, scheme: &str, port: Option<u16>)
    ensures
        final(out)@ == old(out)@ + port_text(scheme@, port),
{
    if let Some(p) = port {
        let default_port = (is_text(scheme, &vec!['h', 't', 't', 'p']) && p == 80)
            || (is_text(scheme, &vec!['h', 't', 't', 'p', 's']) && p == 443);
        if !default_port {
            push_char(out, ':');
            crate::time::push_decimal(out, p as u64);
        }
    }
}

fn push_canonical_path(out: &mut String, path: &str)
    ensures
        final(out)@ == old(out)@ + canonical_path(path@),
{
    let v = chars_of(path);
    if v.len() > 1 && v[v.len() - 1] == '/' {
        let n = crate::text::strip_trailing_len(&v, '/');
        let kept = crate::text::string_from(&v, 0, n);
        push_str(out, kept.as_str());
    } else {
        push_str(out, path);
    }
}

fn push_query(out: &mut String, query: Option<&str>)
    ensures
        final(out)@ == old(out)@ + query_text(match query { Some(q) => Some(q@), None => None }),
{
    if let Some(q) = query {
        push_char(out, '?');
        push_str(out, q);
    }
}

/// Canonical feed identity: lower-cased scheme/host, default port dropped,
/// fragment removed and trailing "/" stripped from the path (kept for "/").
/// Query strings are preserved (Google News RSS search URLs rely on them).
pub fn canonical_url(raw: &str) -> (r: String)
    ensures
        r@ == canonical_url_text(raw@),
{
    let t = crate::text::trimmed(raw);
    match FeedUrl::parse(t.as_str()) {
        Ok(u) => {
            let scheme = to_lowercase(u.scheme());
            let host = match u.host_str() {
                Some(h) => to_lowercase(h),
                None => String::new(),
            };
            let mut out = String::new();
            push_str(&mut out, scheme.as_str());
            push_char(&mut out, ':');
            push_char(&mut out, '/');
            push_char(&mut out, '/');
            push_str(&mut out, host.as_str());
            push_port(&mut out, scheme.as_str(), u.port());
            push_canonical_path(&mut out, u.path());
            push_query(&mut out, u.query());
            out
        },
        Err(_) => {
            let v = chars_of(t.as_str());
            let n = crate::text::strip_trailing_len(&v, '/');
            crate::text::string_from(&v, 0, n)
        },
    }
}

// ---------------------------------------------------------------------------
// outbound fetch guard

/// Literal IPv4 addresses refused as fetch targets: this-network, loopback,
/// private, link-local (the cloud metadata endpoint), shared CGNAT space,
/// multicast, reserved/broadcast, documentation and benchmarking ranges.
pub open spec fn unsafe_ipv4(o: Seq<u8>) -> bool {
    ||| o[0] == 0
    ||| o[0] == 127
    ||| o[0] == 10
    ||| o[0] == 172 && 16 <= o[1] <= 31
    ||| o[0] == 192 && o[1] == 168
    ||| o[0] == 169 && o[1] == 254
    ||| o[0] == 100 && 64 <= o[1] <= 127
    ||| 224 <= o[0] <= 239
    ||| o[0] >= 240
    ||| o[0] == 192 && o[1] == 0 && o[2] == 2
    ||| o[0] == 198 && o[1] == 51 && o[2] == 100
    ||| o[0] == 203 && o[1] == 0 && o[2] == 113
    ||| o[0] == 198 && 18 <= o[1] <= 19
}

/// The IPv4 address embedded in an IPv4-mapped IPv6 address `::ffff:a.b.c.d`
/// (`Ipv6Addr::to_ipv4_mapped`).
pub open spec fn ipv4_mapped(s: Seq<u16>) -> Option<Seq<u8>> {
    if s[0] == 0 && s[1] == 0 && s[2] == 0 && s[3] == 0 && s[4] == 0 && s[5] == 0xffff {
        Some(seq![(s[6] / 256) as u8, (s[6] % 256) as u8, (s[7] / 256) as u8, (s[7] % 256) as u8])
    } else {
        None
    }
}

/// Literal IPv6 addresses refused as fetch targets: an IPv4-mapped address
/// by its IPv4 address; otherwise `::`, `::1`, multicast `ff00::/8`,
/// link-local `fe80::/10`, unique-local `fc00::/7`, documentation
/// `2001:db8::/32`.
pub open spec fn unsafe_ipv6(s: Seq<u16>) -> bool {
    match ipv4_mapped(s) {
        Some(v4) => unsafe_ipv4(v4),
        None => {
            ||| (s[0] == 0 && s[1] == 0 && s[2] == 0 && s[3] == 0 && s[4] == 0 && s[5] == 0 && s[6] == 0
                && (s[7] == 0 || s[7] == 1))
            ||| s[0] >= 0xff00
            ||| 0xfe80 <= s[0] <= 0xfebf
            ||| 0xfc00 <= s[0] <= 0xfdff
            ||| s[0] == 0x2001 && s[1] == 0x0db8
        },
    }
}

pub open spec fn internal_name(d: Seq<char>) -> bool {
    let l = d.map_values(|c: char| ascii_lower(c));
    ||| l == seq!['l', 'o', 'c', 'a', 'l', 'h', 'o', 's', 't']
    ||| ends_with(l, seq!['.', 'l', 'o', 'c', 'a', 'l', 'h', 'o', 's', 't'])
    ||| ends_with(l, seq!['.', 'l', 'o', 'c', 'a', 'l'])
    ||| ends_with(l, seq!['.', 'i', 'n', 't', 'e', 'r', 'n', 'a', 'l'])
}

/// Whether the lexical guard lets a URL be fetched: an http(s) URL whose host
/// is neither a local/internal name nor a literal private or special-use
/// address.
pub open spec fn fetch_url_is_safe(u: UrlView) -> bool {
    &&& is_http_scheme(u.scheme)
    &&& match u.host {
        Some(HostView::Domain(d)) => !internal_name(d),
        Some(HostView::Ipv4(o)) => !unsafe_ipv4(o),
        Some(HostView::Ipv6(s)) => !unsafe_ipv6(s),
        None => false,
    }
}

pub fn is_unsafe_ipv4(o: &[u8; 4]) -> (r: bool)
    ensures
        r == unsafe_ipv4(o@),
{
    let a = o[0];
    let b = o[1];
    let c = o[2];
    a == 0 || a == 127 || a == 10 || (a == 172 && 16 <= b && b <= 31) || (a == 192 && b == 168)
        || (a == 169 && b == 254) || (a == 100 && 64 <= b && b <= 127) || (224 <= a && a <= 239)
        || a >= 240 || (a == 192 && b == 0 && c == 2) || (a == 198 && b == 51 && c == 100)
        || (a == 203 && b == 0 && c == 113) || (a == 198 && 18 <= b && b <= 19)
}

/// `Ipv6Addr::to_ipv4_mapped` on the segments of an address.
pub fn to_ipv4_mapped(s: &[u16; 8]) -> (r: Option<[u8; 4]>)
    ensures
        match r {
            Some(o) => ipv4_mapped(s@) == Some(o@),
            None => ipv4_mapped(s@) is None,
        },
{
    if s[0] == 0 && s[1] == 0 && s[2] == 0 && s[3] == 0 && s[4] == 0 && s[5] == 0xffff {
        let o = [(s[6] / 256) as u8, (s[6] % 256) as u8, (s[7] / 256) as u8, (s[7] % 256) as u8];
        assert(o@ =~= seq![(s[6] / 256) as u8, (s[6] % 256) as u8, (s[7] / 256) as u8, (s[7] % 256) as u8]);
        Some(o)
    } else {
        None
    }
}

pub fn is_unsafe_ipv6(s: &[u16; 8]) -> (r: bool)
    ensures
        r == unsafe_ipv6(s@),
{
    if let Some(v4) = to_ipv4_mapped(s) {
        return is_unsafe_ipv4(&v4);
    }
    let first = s[0];
    (s[0] == 0 && s[1] == 0 && s[2] == 0 && s[3] == 0 && s[4] == 0 && s[5] == 0 && s[6] == 0
        && (s[7] == 0 || s[7] == 1)) || first >= 0xff00 || (0xfe80 <= first && first <= 0xfebf)
        || (0xfc00 <= first && first <= 0xfdff) || (first == 0x2001 && s[1] == 0x0db8)
}

fn lower_ascii_chars(v: &Vec<char>) -> (r: Vec<char>)
    ensures
        r@ == v@.map_values(|c: char| ascii_lower(c)),
{
    let mut out: Vec<char> = Vec::new();
    let mut i: usize = 0;
    while i < v.len()
        invariant
            i <= v.len(),
            out@ == v@.subrange(0, i as int).map_values(|c: char| ascii_lower(c)),
        decreases v.len() - i,
    {
        let c = v[i];
        let l = if 'A' <= c && c <= 'Z' {
            let u = (c as u32) + 32;
            u as u8 as char
        } else {
            c
        };
        out.push(l);
        assert(v@.subrange(0, i + 1) == v@.subrange(0, i as int).push(c));
        i += 1;
    }
    assert(v@.subrange(0, v.len() as int) == v@);
    out
}

fn is_internal_name(d: &str) -> (r: bool)
    ensures
        r == internal_name(d@),
{
    let l = lower_ascii_chars(&chars_of(d));
    crate::text::chars_equal(&l, &vec!['l', 'o', 'c', 'a', 'l', 'h', 'o', 's', 't'])
        || crate::text::chars_end_with(&l, &vec!['.', 'l', 'o', 'c', 'a', 'l', 'h', 'o', 's', 't'])
        || crate::text::chars_end_with(&l, &vec!['.', 'l', 'o', 'c', 'a', 'l'])
        || crate::text::chars_end_with(&l, &vec!['.', 'i', 'n', 't', 'e', 'r', 'n', 'a', 'l'])
}

fn is_http_scheme_text(s: &str) -> (r: bool)
    ensures
        r == is_http_scheme(s@),
{
    is_text(s, &vec!['h', 't', 't', 'p']) || is_text(s, &vec!['h', 't', 't', 'p', 's'])
}

/// Lexical URL guard for outbound feed GETs.
///
/// A cheap lexical defense, not complete SSRF prevention: a hostname that
/// resolves to a private address is not visible here. It rejects non-http(s)
/// schemes, URLs without a host, literal local/internal names (`localhost`,
/// `.localhost`, `.local`, `.internal`) and literal private or special-use IPs.
pub fn is_safe_fetch_url(url: &FeedUrl) -> (r: bool)
    ensures
        r == fetch_url_is_safe(url@),
{
    if !is_http_scheme_text(url.scheme()) {
        return false;
    }
    match url.host() {
        Some(UrlHost::Domain(domain)) => !is_internal_name(domain.as_str()),
        Some(UrlHost::Ipv4(addr)) => !is_unsafe_ipv4(addr),
        Some(UrlHost::Ipv6(addr)) => !is_unsafe_ipv6(addr),
        None => false,
    }
}

/// Where a `Location` header leads from the URL it came from: the reference
/// resolved against the base, when it is non-empty, resolvable and http(s).
pub open spec fn redirect_target(base: UrlView, location: Seq<char>) -> Option<UrlView> {
    if location.len() == 0 {
        None
    } else {
        match url_join_result(base, location) {
            Some(j) => if is_http_scheme(j.scheme) { Some(j) } else { None },
            None => None,
        }
    }
}

/// Resolve a `Location` header against the URL it came from (absolute URL,
/// protocol-relative `//host/path`, or root/relative path) into a fetchable
/// URL. Returns `None` for an unusable target: empty, unjoinable, or not
/// http(s).
pub fn resolve_redirect(base: &FeedUrl, location: &str) -> (r: Option<FeedUrl>)
    ensures
        opt_url(r) == redirect_target(base@, location@),
{
    if location.is_empty() {
        return None;
    }
    match base.join(location) {
        Some(joined) => if is_http_scheme_text(joined.scheme()) { Some(joined) } else { None },
        None => None,
    }
}

/// Whether a text parses as an http(s) URL.
pub open spec fn is_http_url_text(value: Seq<char>) -> bool {
    match url_parse_result(value) {
        Ok(u) => is_http_scheme(u.scheme),
        Err(_) => false,
    }
}

pub fn is_http_url(value: &str) -> (r: bool)
    ensures
        r == is_http_url_text(value@),
{
    match FeedUrl::parse(value) {
        Ok(u) => is_http_scheme_text(u.scheme()),
        Err(_) => false,
    }
}

}
