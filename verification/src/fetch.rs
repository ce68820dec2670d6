//! The outbound feed GET: manual redirect following with every hop checked by
//! the fetch guard, the response-size cap, and the status rules the refresh
//! pipeline relies on. The worker performs each request; the decisions are
//! made here, one response at a time.
use vstd::prelude::*;
use crate::digits::decimal;
use crate::numbers::{parse_usize, usize_text};
use crate::text::{concat2, push_str};
use crate::time::{opt_text, push_decimal};
use crate::feed::{document_articles, parse_document, FeedParser};
use crate::types::Article;
use crate::urls::{fetch_url_is_safe, is_safe_fetch_url, redirect_target, resolve_redirect, FeedUrl, UrlView};

verus! {

/// Most articles stored from one fetch (keeps one invocation within the
/// platform's per-request limits).
pub const MAX_ARTICLES_PER_FETCH: usize = 25;

/// Most redirect hops followed for one feed GET.
pub const MAX_REDIRECTS: usize = 5;

/// Largest response body accepted, in bytes (2 MiB).
pub const MAX_FEED_BYTES: usize = 2097152;

/// Refresh interval assumed when a feed row carries none.
pub const DEFAULT_FETCH_INTERVAL_MINUTES: i64 = 15;

/// Longest back-off after failures (one day).
pub const MAX_BACKOFF_MINUTES: i64 = 1440;

/// The redirect statuses the manual loop follows.
pub open spec fn redirect_status(status: u16) -> bool {
    status == 301 || status == 302 || status == 303 || status == 307 || status == 308
}

/// Only 301/302/303/307/308 count as redirects (300 Multiple Choices and 304
/// Not Modified do not).
pub fn is_redirect_status(status: u16) -> (r: bool)
    ensures
        r == redirect_status(status),
{
    status == 301 || status == 302 || status == 303 || status == 307 || status == 308
}

pub open spec fn success_status(status: int) -> bool {
    200 <= status < 300
}

/// `2^n`.
pub open spec fn two_pow(n: nat) -> int
    decreases n,
{
    if n == 0 {
        1
    } else {
        2 * two_pow((n - 1) as nat)
    }
}

/// How many doublings a failure count earns: the count held to `0..=6`.
pub open spec fn backoff_shift(consecutive_failures: int) -> nat {
    if consecutive_failures < 0 {
        0
    } else if consecutive_failures > 6 {
        6
    } else {
        consecutive_failures as nat
    }
}

/// The interval a back-off starts from: the feed's interval, at least 5.
pub open spec fn backoff_base(interval: int) -> int {
    if interval < 5 { 5 } else { interval }
}

/// Minutes until the next attempt after `consecutive_failures` failures:
/// the base interval doubled once per failure (up to six times), capped at a
/// day.
pub open spec fn backoff(interval: int, consecutive_failures: int) -> int {
    let raw = backoff_base(interval) * two_pow(backoff_shift(consecutive_failures));
    if raw < MAX_BACKOFF_MINUTES { raw } else { MAX_BACKOFF_MINUTES as int }
}

/// Whether computing the back-off stays within `i64`.
pub open spec fn backoff_fits(interval: int, consecutive_failures: int) -> bool {
    backoff_base(interval) * two_pow(backoff_shift(consecutive_failures)) <= i64::MAX
}

/// Exponential back-off so a broken origin is not hammered every cycle.
pub fn backoff_minutes(interval: i64, consecutive_failures: i64) -> (r: i64)
    requires
        backoff_fits(interval as int, consecutive_failures as int),
    ensures
        r == backoff(interval as int, consecutive_failures as int),
{
    let shift: i64 = if consecutive_failures < 0 {
        0
    } else if consecutive_failures > 6 {
        6
    } else {
        consecutive_failures
    };
    let factor: i64 = if shift == 0 { 1 } else if shift == 1 { 2 } else if shift == 2 { 4 }
        else if shift == 3 { 8 } else if shift == 4 { 16 } else if shift == 5 { 32 } else { 64 };
    assert(factor == two_pow(backoff_shift(consecutive_failures as int))) by {
        reveal_with_fuel(two_pow, 7);
    }
    let base: i64 = if interval < 5 { 5 } else { interval };
    let raw = base * factor;
    if raw < MAX_BACKOFF_MINUTES { raw } else { MAX_BACKOFF_MINUTES }
}

/// The back-off never exceeds a day, never drops below the feed's own
/// interval (or the day, when that is longer), and never shrinks as failures
/// accumulate.
pub proof fn backoff_is_bounded_and_monotone(interval: int, f1: int, f2: int)
    requires
        f1 <= f2,
    ensures
        backoff(interval, f2) <= MAX_BACKOFF_MINUTES,
        backoff(interval, f2) >= if backoff_base(interval) < MAX_BACKOFF_MINUTES {
            backoff_base(interval)
        } else {
            MAX_BACKOFF_MINUTES as int
        },
        backoff(interval, f1) <= backoff(interval, f2),
{
    reveal_with_fuel(two_pow, 7);
    let b = backoff_base(interval);
    let s1 = backoff_shift(f1);
    let s2 = backoff_shift(f2);
    assert(1 <= two_pow(s1) <= two_pow(s2));
    assert(b * 1 <= b * two_pow(s1) <= b * two_pow(s2)) by (nonlinear_arith)
        requires
            b >= 5,
            1 <= two_pow(s1) <= two_pow(s2),
    ;
}

// ---------------------------------------------------------------------------
// one feed GET

/// What a feed GET produced: its final status, the validators it carried
/// (non-empty ones only) and its body (read only for a 2xx answer; empty
/// otherwise, so a 304 is never mistaken for an empty feed).
#[derive(Debug)]
pub struct FetchedFeed {
    pub status: u16,
    pub etag: Option<String>,
    pub last_modified: Option<String>,
    pub body: String,
}

pub struct FetchedView {
    pub status: u16,
    pub etag: Option<Seq<char>>,
    pub last_modified: Option<Seq<char>>,
    pub body: Seq<char>,
}

impl View for FetchedFeed {
    type V = FetchedView;

    open spec fn view(&self) -> FetchedView {
        FetchedView {
            status: self.status,
            etag: opt_text(self.etag),
            last_modified: opt_text(self.last_modified),
            body: self.body@,
        }
    }
}

/// The status line and the headers of one response that the fetch reads.
#[derive(Debug)]
pub struct ResponseHead {
    pub status: u16,
    pub location: Option<String>,
    pub etag: Option<String>,
    pub last_modified: Option<String>,
    pub content_length: Option<String>,
}

pub struct HeadView {
    pub status: u16,
    pub location: Option<Seq<char>>,
    pub etag: Option<Seq<char>>,
    pub last_modified: Option<Seq<char>>,
    pub content_length: Option<Seq<char>>,
}

impl View for ResponseHead {
    type V = HeadView;

    open spec fn view(&self) -> HeadView {
        HeadView {
            status: self.status,
            location: opt_text(self.location),
            etag: opt_text(self.etag),
            last_modified: opt_text(self.last_modified),
            content_length: opt_text(self.content_length),
        }
    }
}

/// What the worker does next for a feed GET.
#[derive(Debug)]
pub enum DocumentStep {
    /// Send a GET (redirects not followed by the runtime) to this URL.
    Send(String),
    /// Read the body of the response just classified.
    ReadBody,
    /// The GET is over with this result.
    Done(FetchedFeed),
    /// The GET failed with this message.
    Failed(String),
}

pub enum DocumentStepView {
    Send(Seq<char>),
    ReadBody,
    Done(FetchedView),
    Failed(Seq<char>),
}

impl View for DocumentStep {
    type V = DocumentStepView;

    open spec fn view(&self) -> DocumentStepView {
        match self {
            DocumentStep::Send(u) => DocumentStepView::Send(u@),
            DocumentStep::ReadBody => DocumentStepView::ReadBody,
            DocumentStep::Done(f) => DocumentStepView::Done(f@),
            DocumentStep::Failed(m) => DocumentStepView::Failed(m@),
        }
    }
}

/// A feed GET in progress: the URL it started from, the URL of the current
/// hop, the redirects followed so far and, once a 2xx response is
/// classified, its status and validators while its body is read.
pub struct DocumentFetch {
    origin: String,
    current: FeedUrl,
    redirects: usize,
    pending: Option<(u16, Option<String>, Option<String>)>,
}

pub struct DocumentFetchView {
    pub origin: Seq<char>,
    pub current: UrlView,
    pub redirects: nat,
    pub pending: Option<(u16, Option<Seq<char>>, Option<Seq<char>>)>,
}

pub open spec fn opt_pending(p: Option<(u16, Option<String>, Option<String>)>) -> Option<(u16, Option<Seq<char>>, Option<Seq<char>>)> {
    match p {
        Some((s, e, l)) => Some((s, opt_text(e), opt_text(l))),
        None => None,
    }
}

impl View for DocumentFetch {
    type V = DocumentFetchView;

    closed spec fn view(&self) -> DocumentFetchView {
        DocumentFetchView {
            origin: self.origin@,
            current: self.current@,
            redirects: self.redirects as nat,
            pending: opt_pending(self.pending),
        }
    }
}

/// A header value, dropped when empty.
pub open spec fn non_empty(o: Option<Seq<char>>) -> Option<Seq<char>> {
    match o {
        Some(v) => if v.len() > 0 { Some(v) } else { None },
        None => None,
    }
}

/// The `Content-Length` a response declares, when it reads as a `usize`.
pub open spec fn declared_length(raw: Option<Seq<char>>) -> Option<usize> {
    match raw {
        Some(t) => usize_text(t),
        None => None,
    }
}

pub open spec fn body_bytes(body: Seq<char>) -> nat {
    vstd::utf8::encode_utf8(body).len()
}

pub open spec fn msg_blocked_url(href: Seq<char>) -> Seq<char> {
    "blocked unsafe fetch URL: "@ + href
}

pub open spec fn msg_redirect_limit(origin: Seq<char>) -> Seq<char> {
    "feed redirect limit exceeded (5) from "@ + origin
}

pub open spec fn msg_blocked_redirect(href: Seq<char>) -> Seq<char> {
    "blocked unsafe redirect target: "@ + href
}

pub open spec fn msg_declared_too_large(len: nat) -> Seq<char> {
    "feed response too large: Content-Length "@ + decimal(len) + " exceeds 2097152 bytes"@
}

pub open spec fn msg_body_too_large(len: nat) -> Seq<char> {
    "feed response too large: "@ + decimal(len) + " bytes exceeds 2097152 bytes"@
}

/// A finished GET with no body.
pub open spec fn bodiless(status: u16, etag: Option<Seq<char>>, last_modified: Option<Seq<char>>) -> FetchedView {
    FetchedView { status, etag, last_modified, body: Seq::empty() }
}

/// A feed GET starts at `url` when the guard admits it.
pub open spec fn start_step(url: UrlView) -> (DocumentFetchView, DocumentStepView) {
    let s = DocumentFetchView { origin: url.href, current: url, redirects: 0, pending: None };
    if fetch_url_is_safe(url) {
        (s, DocumentStepView::Send(url.href))
    } else {
        (s, DocumentStepView::Failed(msg_blocked_url(url.href)))
    }
}

/// One response head applied to a GET: a redirect with a usable `Location`
/// is followed (within the hop limit, to a target the guard admits); a
/// redirect without one ends the GET with its status; any other response
/// that is not 2xx ends the GET with an empty body, whatever length it
/// declares; a 2xx response is refused when it declares a body over the cap,
/// and otherwise has its body read.
pub open spec fn head_step(s: DocumentFetchView, h: HeadView) -> (DocumentFetchView, DocumentStepView) {
    if redirect_status(h.status) {
        let target = match non_empty(h.location) {
            Some(loc) => redirect_target(s.current, loc),
            None => None,
        };
        match target {
            None => (s, DocumentStepView::Done(bodiless(h.status, None, None))),
            Some(next) => if s.redirects >= MAX_REDIRECTS {
                (s, DocumentStepView::Failed(msg_redirect_limit(s.origin)))
            } else if !fetch_url_is_safe(next) {
                (s, DocumentStepView::Failed(msg_blocked_redirect(next.href)))
            } else {
                (DocumentFetchView { current: next, redirects: s.redirects + 1, ..s }, DocumentStepView::Send(next.href))
            },
        }
    } else {
        let etag = non_empty(h.etag);
        let last_modified = non_empty(h.last_modified);
        if !success_status(h.status as int) {
            (s, DocumentStepView::Done(bodiless(h.status, etag, last_modified)))
        } else {
            match declared_length(h.content_length) {
                Some(len) if len > MAX_FEED_BYTES => (s, DocumentStepView::Failed(msg_declared_too_large(len as nat))),
                _ => (DocumentFetchView { pending: Some((h.status, etag, last_modified)), ..s }, DocumentStepView::ReadBody),
            }
        }
    }
}

/// The body of a classified 2xx response: refused over the cap, otherwise
/// the result of the GET.
pub open spec fn body_step(status: u16, etag: Option<Seq<char>>, last_modified: Option<Seq<char>>, body: Seq<char>) -> DocumentStepView {
    if body_bytes(body) > MAX_FEED_BYTES {
        DocumentStepView::Failed(msg_body_too_large(body_bytes(body)))
    } else {
        DocumentStepView::Done(FetchedView { status, etag, last_modified, body })
    }
}

/// A GET between requests: its current hop passed the guard, no more than
/// the allowed redirects were followed, and no body is awaited.
pub open spec fn between_hops(s: DocumentFetchView) -> bool {
    &&& fetch_url_is_safe(s.current)
    &&& s.redirects <= MAX_REDIRECTS
    &&& s.pending is None
}

/// A step that sends a request sends it to a URL the guard admits.
pub open spec fn sends_safely(step: DocumentStepView) -> bool {
    step matches DocumentStepView::Send(u) ==> exists|v: UrlView| #[trigger] fetch_url_is_safe(v) && v.href == u
}

/// The steps a GET takes over the heads of the responses it receives: each
/// head is applied in turn for as long as the previous step sent a request.
pub open spec fn head_run(s: DocumentFetchView, heads: Seq<HeadView>) -> Seq<DocumentStepView>
    decreases heads.len(),
{
    if heads.len() == 0 {
        Seq::empty()
    } else {
        let (next, step) = head_step(s, heads[0]);
        if step is Send {
            seq![step] + head_run(next, heads.drop_first())
        } else {
            seq![step]
        }
    }
}

/// The steps of a whole GET of `url` whose responses have these heads.
pub open spec fn get_steps(url: UrlView, heads: Seq<HeadView>) -> Seq<DocumentStepView> {
    let (s, first) = start_step(url);
    if first is Send {
        seq![first] + head_run(s, heads)
    } else {
        seq![first]
    }
}

proof fn lemma_head_run(s: DocumentFetchView, heads: Seq<HeadView>)
    requires
        between_hops(s),
    ensures
        forall|i: int| 0 <= i < head_run(s, heads).len() ==> sends_safely(#[trigger] head_run(s, heads)[i]),
        forall|i: int| 0 <= i < head_run(s, heads).len() && (#[trigger] head_run(s, heads)[i]) is Send
            ==> i < MAX_REDIRECTS - s.redirects,
    decreases heads.len(),
{
    if heads.len() > 0 {
        let h = heads[0];
        let (next, step) = head_step(s, h);
        let run = head_run(s, heads);
        if step is Send {
            let target = match non_empty(h.location) {
                Some(loc) => redirect_target(s.current, loc),
                None => None,
            };
            assert(redirect_status(h.status));
            assert(target is Some);
            let t = target.unwrap();
            assert(fetch_url_is_safe(t) && t.href == step->Send_0);
            assert(s.redirects < MAX_REDIRECTS);
            assert(next == DocumentFetchView { current: t, redirects: s.redirects + 1, ..s });
            assert(sends_safely(step));
            lemma_head_run(next, heads.drop_first());
            let rest = head_run(next, heads.drop_first());
            assert(run == seq![step] + rest);
            assert forall|i: int| 0 <= i < run.len() implies sends_safely(#[trigger] run[i])
                && (run[i] is Send ==> i < MAX_REDIRECTS - s.redirects) by {
                if i > 0 {
                    assert(run[i] == rest[i - 1]);
                }
            }
        } else {
            assert(run == seq![step]);
        }
    }
}

/// Over a whole GET, whatever the responses: every request goes to a URL the
/// fetch guard admits (the starting URL included), and at most
/// `MAX_REDIRECTS + 1` requests are sent, the first and one per redirect
/// followed.
pub proof fn every_request_of_a_get_is_guarded(url: UrlView, heads: Seq<HeadView>)
    ensures
        forall|i: int| 0 <= i < get_steps(url, heads).len() ==> sends_safely(#[trigger] get_steps(url, heads)[i]),
        forall|i: int| 0 <= i < get_steps(url, heads).len() && (#[trigger] get_steps(url, heads)[i]) is Send
            ==> i <= MAX_REDIRECTS,
{
    let (s, first) = start_step(url);
    let steps = get_steps(url, heads);
    if first is Send {
        assert(fetch_url_is_safe(url) && url.href == first->Send_0);
        assert(sends_safely(first));
        assert(between_hops(s));
        lemma_head_run(s, heads);
        let rest = head_run(s, heads);
        assert(steps == seq![first] + rest);
        assert forall|i: int| 0 <= i < steps.len() implies sends_safely(#[trigger] steps[i])
            && (steps[i] is Send ==> i <= MAX_REDIRECTS) by {
            if i > 0 {
                assert(steps[i] == rest[i - 1]);
            }
        }
    } else {
        assert(steps == seq![first]);
    }
}

fn non_empty_text(o: Option<String>) -> (r: Option<String>)
    ensures
        opt_text(r) == non_empty(opt_text(o)),
{
    match o {
        Some(v) => if v.as_str().is_empty() { None } else { Some(v) },
        None => None,
    }
}

fn number_message(prefix: &str, n: usize, suffix: &str) -> (r: String)
    ensures
        r@ == prefix@ + decimal(n as nat) + suffix@,
{
    let mut s = String::new();
    push_str(&mut s, prefix);
    push_decimal(&mut s, n as u64);
    push_str(&mut s, suffix);
    assert(s@ =~= prefix@ + decimal(n as nat) + suffix@);
    s
}

impl DocumentFetch {
    /// What holds of a GET between steps: the current hop passed the guard
    /// and no more than the allowed redirects were followed.
    pub closed spec fn wf(&self) -> bool {
        &&& fetch_url_is_safe(self@.current)
        &&& self@.redirects <= MAX_REDIRECTS
        &&& self@.pending matches Some(p) ==> success_status(p.0 as int)
    }

    /// Starts a GET of `url`; the first step sends it, or refuses it when the
    /// guard does not admit it.
    pub fn start(url: FeedUrl) -> (r: (DocumentFetch, DocumentStep))
        ensures
            (r.0@, r.1@) == start_step(url@),
            r.1@ is Send ==> r.0.wf(),
    {
        let origin = String::from_str(url.as_str());
        if is_safe_fetch_url(&url) {
            let first = String::from_str(url.as_str());
            (DocumentFetch { origin, current: url, redirects: 0, pending: None }, DocumentStep::Send(first))
        } else {
            let message = concat2("blocked unsafe fetch URL: ", url.as_str());
            (DocumentFetch { origin, current: url, redirects: 0, pending: None }, DocumentStep::Failed(message))
        }
    }

    /// Whether a classified 2xx response is waiting for its body.
    pub fn awaiting_body(&self) -> (r: bool)
        ensures
            r == self@.pending is Some,
    {
        self.pending.is_some()
    }

    /// Applies the head of the response to the last `Send`. Every URL sent
    /// passed the guard, and at most `MAX_REDIRECTS` redirects are followed.
    pub fn on_head(&mut self, head: ResponseHead) -> (r: DocumentStep)
        requires
            old(self).wf(),
            old(self)@.pending is None,
        ensures
            (final(self)@, r@) == head_step(old(self)@, head@),
            final(self).wf(),
            r@ matches DocumentStepView::Send(u) ==> u == final(self)@.current.href,
            r@ is ReadBody ==> success_status(head.status as int),
    {
        let status = head.status;
        if is_redirect_status(status) {
            let location = non_empty_text(head.location);
            let target = match &location {
                Some(loc) => resolve_redirect(&self.current, loc.as_str()),
                None => None,
            };
            match target {
                None => DocumentStep::Done(FetchedFeed { status, etag: None, last_modified: None, body: String::new() }),
                Some(next) => {
                    if self.redirects >= MAX_REDIRECTS {
                        DocumentStep::Failed(concat2("feed redirect limit exceeded (5) from ", self.origin.as_str()))
                    } else if !is_safe_fetch_url(&next) {
                        DocumentStep::Failed(concat2("blocked unsafe redirect target: ", next.as_str()))
                    } else {
                        self.redirects = self.redirects + 1;
                        let href = String::from_str(next.as_str());
                        self.current = next;
                        DocumentStep::Send(href)
                    }
                },
            }
        } else {
            let etag = non_empty_text(head.etag);
            let last_modified = non_empty_text(head.last_modified);
            if !(200 <= status && status < 300) {
                return DocumentStep::Done(FetchedFeed { status, etag, last_modified, body: String::new() });
            }
            let declared = match &head.content_length {
                Some(raw) => parse_usize(raw.as_str()),
                None => None,
            };
            if let Some(len) = declared {
                if len > MAX_FEED_BYTES {
                    return DocumentStep::Failed(number_message(
                        "feed response too large: Content-Length ",
                        len,
                        " exceeds 2097152 bytes",
                    ));
                }
            }
            self.pending = Some((status, etag, last_modified));
            DocumentStep::ReadBody
        }
    }

    /// Applies the body read after `ReadBody`: the result of the GET, or a
    /// refusal when the body is over the cap.
    pub fn on_body(&mut self, body: String) -> (r: DocumentStep)
        requires
            old(self).wf(),
            old(self)@.pending is Some,
        ensures
            old(self)@.pending matches Some((status, etag, last_modified))
                && r@ == body_step(status, etag, last_modified, body@),
            r@ matches DocumentStepView::Done(f) ==> success_status(f.status as int)
                && body_bytes(f.body) <= MAX_FEED_BYTES,
    {
        let (status, etag, last_modified) = self.pending.take().unwrap();
        let bytes = body.as_str().as_bytes().len();
        if bytes > MAX_FEED_BYTES {
            DocumentStep::Failed(number_message("feed response too large: ", bytes, " bytes exceeds 2097152 bytes"))
        } else {
            DocumentStep::Done(FetchedFeed { status, etag, last_modified, body })
        }
    }
}


/// The error of a GET that ended with a non-2xx status.
pub open spec fn msg_http_status(status: u16) -> Seq<char> {
    "feed returned HTTP "@ + decimal(status as nat)
}


/// "feed returned HTTP <status>".
pub fn http_status_message(status: u16) -> (r: String)
    ensures
        r@ == msg_http_status(status),
{
    let mut m = String::new();
    push_str(&mut m, "feed returned HTTP ");
    push_decimal(&mut m, status as u64);
    m
}


impl FeedParser {
    /// The articles a finished GET yields, as `fetch_feed` reads them
    /// (feed id 0): a non-2xx answer is an error, a 2xx body is parsed.
    pub fn articles_from_fetch(fetched: FetchedFeed) -> (r: Result<Vec<Article>, String>)
        ensures
            if !success_status(fetched.status as int) {
                r matches Err(m) && m@ == msg_http_status(fetched.status)
            } else {
                match document_articles(fetched.body@, 0) {
                    Ok(a) => r matches Ok(v) && v@.map_values(|x: Article| x@) == a,
                    Err(e) => r matches Err(m) && m@ == e,
                }
            },
    {
        if !(200 <= fetched.status && fetched.status < 300) {
            return Err(http_status_message(fetched.status));
        }
        match parse_document(fetched.body.as_str(), 0) {
            Ok(v) => Ok(v),
            Err(e) => Err(e.message),
        }
    }
}


/// A header value that is present and not empty.
pub open spec fn carries_text(o: Option<Seq<char>>) -> bool {
    o is Some && o.unwrap().len() > 0
}

/// The validators of a final 2xx response are passed through: after a
/// within-cap body, the GET's result carries the response's status and body,
/// its ETag and Last-Modified when they are non-empty, and neither when they
/// are missing or empty.
pub proof fn a_2xx_response_keeps_its_validators(s: DocumentFetchView, h: HeadView, body: Seq<char>)
    requires
        success_status(h.status as int),
        !(declared_length(h.content_length) matches Some(n) && n > MAX_FEED_BYTES),
        body_bytes(body) <= MAX_FEED_BYTES,
    ensures
        head_step(s, h).1 is ReadBody,
        head_step(s, h).0.pending matches Some((st, e, l))
            && body_step(st, e, l, body) matches DocumentStepView::Done(f)
            && f.status == h.status
            && f.body == body
            && (carries_text(h.etag) ==> f.etag == h.etag)
            && (!carries_text(h.etag) ==> f.etag is None)
            && (carries_text(h.last_modified) ==> f.last_modified == h.last_modified)
            && (!carries_text(h.last_modified) ==> f.last_modified is None),
{
}

}
