//! Refreshing one feed of the shared pool: conditional GET, status handling,
//! parsing, the subscription gate, storing at most a bounded number of
//! articles, and the success/failure bookkeeping with exponential back-off.
//!
//! The worker performs each action (storage reads and writes, the GET) and
//! hands back what came of it; every decision is made here.
use vstd::prelude::*;
use crate::feed::{document_articles, parse_document};
use crate::fetch::{
    backoff, backoff_fits, backoff_minutes, success_status, non_empty, FetchedFeed, FetchedView,
    http_status_message, msg_http_status,
    DEFAULT_FETCH_INTERVAL_MINUTES, MAX_ARTICLES_PER_FETCH,
};
use crate::time::opt_text;
use crate::types::{Article, ArticleView};
use crate::urls::{url_parse_result, FeedUrl, UrlView};

verus! {

/// The columns of a `feeds` row that a refresh reads (each as the row holds
/// it: a missing or mistyped column is `None`).
#[derive(Debug)]
pub struct FeedRow {
    pub id: Option<i64>,
    pub fetch_interval_minutes: Option<i64>,
    pub consecutive_failures: Option<i64>,
    pub etag: Option<String>,
    pub last_modified: Option<String>,
}

pub struct FeedRowView {
    pub id: Option<i64>,
    pub fetch_interval_minutes: Option<i64>,
    pub consecutive_failures: Option<i64>,
    pub etag: Option<Seq<char>>,
    pub last_modified: Option<Seq<char>>,
}

impl View for FeedRow {
    type V = FeedRowView;

    open spec fn view(&self) -> FeedRowView {
        FeedRowView {
            id: self.id,
            fetch_interval_minutes: self.fetch_interval_minutes,
            consecutive_failures: self.consecutive_failures,
            etag: opt_text(self.etag),
            last_modified: opt_text(self.last_modified),
        }
    }
}

pub open spec fn row_interval(r: FeedRowView) -> i64 {
    match r.fetch_interval_minutes {
        Some(i) => i,
        None => DEFAULT_FETCH_INTERVAL_MINUTES,
    }
}

pub open spec fn row_failures(r: FeedRowView) -> i64 {
    match r.consecutive_failures {
        Some(f) => f,
        None => 0,
    }
}

/// Counting one more failure for this row, and the back-off after it, stay
/// within `i64`.
pub open spec fn row_fits(r: FeedRowView) -> bool {
    row_failures(r) < i64::MAX && backoff_fits(row_interval(r) as int, row_failures(r) + 1)
}

impl FeedRow {
    /// Whether the failure bookkeeping of this row stays within `i64`.
    pub fn fits(&self) -> (r: bool)
        ensures
            r == row_fits(self@),
    {
        let interval = match self.fetch_interval_minutes {
            Some(i) => i,
            None => DEFAULT_FETCH_INTERVAL_MINUTES,
        };
        let failures = match self.consecutive_failures {
            Some(f) => f,
            None => 0,
        };
        if failures == i64::MAX {
            return false;
        }
        let base: i128 = if interval < 5 { 5 } else { interval as i128 };
        let next = failures + 1;
        let factor: i128 = if next <= 0 { 1 } else if next == 1 { 2 } else if next == 2 { 4 }
            else if next == 3 { 8 } else if next == 4 { 16 } else if next == 5 { 32 } else { 64 };
        assert(factor == crate::fetch::two_pow(crate::fetch::backoff_shift(next as int))) by {
            reveal_with_fuel(crate::fetch::two_pow, 7);
        }
        assert(base * factor <= 64 * 0x8000_0000_0000_0000) by (nonlinear_arith)
            requires
                5 <= base <= 0x8000_0000_0000_0000,
                1 <= factor <= 64,
        ;
        base * factor <= 0x7fff_ffff_ffff_ffff
    }
}

/// What the refresh records on the feed row.
#[derive(Debug)]
pub enum StatusUpdate {
    /// The feed is healthy: failures reset, validators stored, next fetch
    /// after the given minutes.
    Success { http_status: i32, etag: Option<String>, last_modified: Option<String>, next_fetch_in_minutes: i64 },
    /// The fetch failed: the new failure count and the back-off.
    Failure { http_status: i32, error_message: String, consecutive_failures: i64, next_fetch_in_minutes: i64 },
}

pub enum StatusUpdateView {
    Success { http_status: i32, etag: Option<Seq<char>>, last_modified: Option<Seq<char>>, next_fetch_in_minutes: i64 },
    Failure { http_status: i32, error_message: Seq<char>, consecutive_failures: i64, next_fetch_in_minutes: i64 },
}

impl View for StatusUpdate {
    type V = StatusUpdateView;

    open spec fn view(&self) -> StatusUpdateView {
        match self {
            StatusUpdate::Success { http_status, etag, last_modified, next_fetch_in_minutes } => StatusUpdateView::Success {
                http_status: *http_status,
                etag: opt_text(*etag),
                last_modified: opt_text(*last_modified),
                next_fetch_in_minutes: *next_fetch_in_minutes,
            },
            StatusUpdate::Failure { http_status, error_message, consecutive_failures, next_fetch_in_minutes } => StatusUpdateView::Failure {
                http_status: *http_status,
                error_message: error_message@,
                consecutive_failures: *consecutive_failures,
                next_fetch_in_minutes: *next_fetch_in_minutes,
            },
        }
    }
}

/// What the worker does next for a refresh.
pub enum RefreshAction {
    /// Run a feed GET of `url`, sending these headers on every hop.
    FetchDocument { url: FeedUrl, headers: Vec<(String, String)> },
    /// Write this outcome to the feed row.
    RecordStatus(StatusUpdate),
    /// Count the feed's stored articles.
    CountArticles,
    /// Check whether any device still subscribes to the feed.
    CheckSubscribed,
    /// Store these articles (`INSERT OR IGNORE`, deduplicated by hash).
    InsertArticles(Vec<Article>),
    /// The refresh is over: the number of new articles, or the error.
    Finish(Result<usize, String>),
}

pub enum RefreshActionView {
    FetchDocument { url: UrlView, headers: Seq<(Seq<char>, Seq<char>)> },
    RecordStatus(StatusUpdateView),
    CountArticles,
    CheckSubscribed,
    InsertArticles(Seq<ArticleView>),
    Finish(Result<usize, Seq<char>>),
}

pub open spec fn header_pairs(v: Vec<(String, String)>) -> Seq<(Seq<char>, Seq<char>)> {
    v@.map_values(|p: (String, String)| (p.0@, p.1@))
}

pub open spec fn article_seq(v: Vec<Article>) -> Seq<ArticleView> {
    v@.map_values(|a: Article| a@)
}

pub open spec fn finish_view(r: Result<usize, String>) -> Result<usize, Seq<char>> {
    match r {
        Ok(n) => Ok(n),
        Err(m) => Err(m@),
    }
}

impl View for RefreshAction {
    type V = RefreshActionView;

    open spec fn view(&self) -> RefreshActionView {
        match self {
            RefreshAction::FetchDocument { url, headers } => RefreshActionView::FetchDocument { url: url@, headers: header_pairs(*headers) },
            RefreshAction::RecordStatus(u) => RefreshActionView::RecordStatus(u@),
            RefreshAction::CountArticles => RefreshActionView::CountArticles,
            RefreshAction::CheckSubscribed => RefreshActionView::CheckSubscribed,
            RefreshAction::InsertArticles(v) => RefreshActionView::InsertArticles(article_seq(*v)),
            RefreshAction::Finish(r) => RefreshActionView::Finish(finish_view(*r)),
        }
    }
}

/// What came of the last action.
pub enum RefreshEvent {
    /// The feed GET's result (or its error).
    Fetched(Result<FetchedFeed, String>),
    /// The feed row was written.
    StatusRecorded,
    /// The feed's article count, as the count query answered it (`None`
    /// when the answer has no count, which counts as 0).
    Counted(Option<i64>),
    /// Whether a device still subscribes.
    Subscribed(bool),
    /// The articles were stored.
    Inserted,
}

pub enum RefreshEventView {
    Fetched(Result<FetchedView, Seq<char>>),
    StatusRecorded,
    Counted(Option<i64>),
    Subscribed(bool),
    Inserted,
}

impl View for RefreshEvent {
    type V = RefreshEventView;

    open spec fn view(&self) -> RefreshEventView {
        match self {
            RefreshEvent::Fetched(Ok(f)) => RefreshEventView::Fetched(Ok(f@)),
            RefreshEvent::Fetched(Err(m)) => RefreshEventView::Fetched(Err(m@)),
            RefreshEvent::StatusRecorded => RefreshEventView::StatusRecorded,
            RefreshEvent::Counted(n) => RefreshEventView::Counted(*n),
            RefreshEvent::Subscribed(b) => RefreshEventView::Subscribed(*b),
            RefreshEvent::Inserted => RefreshEventView::Inserted,
        }
    }
}

/// Where a refresh stands between actions.
pub enum RefreshPhase {
    AwaitDocument,
    AwaitRecord(Result<usize, String>),
    AwaitCountBefore { status: i32, body: String, etag: Option<String>, last_modified: Option<String> },
    AwaitSubscribed { status: i32, etag: Option<String>, last_modified: Option<String>, before: i64, articles: Vec<Article> },
    AwaitInserted { status: i32, etag: Option<String>, last_modified: Option<String>, before: i64 },
    AwaitCountAfter { status: i32, etag: Option<String>, last_modified: Option<String>, before: i64 },
    Finished,
}

pub enum RefreshPhaseView {
    AwaitDocument,
    AwaitRecord(Result<usize, Seq<char>>),
    AwaitCountBefore { status: i32, body: Seq<char>, etag: Option<Seq<char>>, last_modified: Option<Seq<char>> },
    AwaitSubscribed { status: i32, etag: Option<Seq<char>>, last_modified: Option<Seq<char>>, before: i64, articles: Seq<ArticleView> },
    AwaitInserted { status: i32, etag: Option<Seq<char>>, last_modified: Option<Seq<char>>, before: i64 },
    AwaitCountAfter { status: i32, etag: Option<Seq<char>>, last_modified: Option<Seq<char>>, before: i64 },
    Finished,
}

/// A refresh of one feed in progress.
pub struct FeedRefresh {
    feed_id: i32,
    interval: i64,
    failures: i64,
    etag: Option<String>,
    last_modified: Option<String>,
    phase: RefreshPhase,
}

pub struct RefreshView {
    pub feed_id: i32,
    pub interval: i64,
    pub failures: i64,
    pub etag: Option<Seq<char>>,
    pub last_modified: Option<Seq<char>>,
    pub phase: RefreshPhaseView,
}

pub open spec fn phase_view(p: RefreshPhase) -> RefreshPhaseView {
    match p {
        RefreshPhase::AwaitDocument => RefreshPhaseView::AwaitDocument,
        RefreshPhase::AwaitRecord(r) => RefreshPhaseView::AwaitRecord(finish_view(r)),
        RefreshPhase::AwaitCountBefore { status, body, etag, last_modified } => RefreshPhaseView::AwaitCountBefore {
            status, body: body@, etag: opt_text(etag), last_modified: opt_text(last_modified),
        },
        RefreshPhase::AwaitSubscribed { status, etag, last_modified, before, articles } => RefreshPhaseView::AwaitSubscribed {
            status, etag: opt_text(etag), last_modified: opt_text(last_modified), before, articles: article_seq(articles),
        },
        RefreshPhase::AwaitInserted { status, etag, last_modified, before } => RefreshPhaseView::AwaitInserted {
            status, etag: opt_text(etag), last_modified: opt_text(last_modified), before,
        },
        RefreshPhase::AwaitCountAfter { status, etag, last_modified, before } => RefreshPhaseView::AwaitCountAfter {
            status, etag: opt_text(etag), last_modified: opt_text(last_modified), before,
        },
        RefreshPhase::Finished => RefreshPhaseView::Finished,
    }
}

impl View for FeedRefresh {
    type V = RefreshView;

    closed spec fn view(&self) -> RefreshView {
        RefreshView {
            feed_id: self.feed_id,
            interval: self.interval,
            failures: self.failures,
            etag: opt_text(self.etag),
            last_modified: opt_text(self.last_modified),
            phase: phase_view(self.phase),
        }
    }
}

pub open spec fn lit_if_none_match() -> Seq<char> {
    "If-None-Match"@
}

pub open spec fn lit_if_modified_since() -> Seq<char> {
    "If-Modified-Since"@
}

/// The conditional-GET headers for the validators the feed last gave: each
/// non-empty one is sent back.
pub open spec fn conditional_headers(etag: Option<Seq<char>>, last_modified: Option<Seq<char>>) -> Seq<(Seq<char>, Seq<char>)> {
    let first = match non_empty(etag) {
        Some(e) => seq![(lit_if_none_match(), e)],
        None => Seq::empty(),
    };
    match non_empty(last_modified) {
        Some(l) => first.push((lit_if_modified_since(), l)),
        None => first,
    }
}

/// How a refresh starts from the feed row found for its URL: no row (no such
/// feed, or nobody subscribes) or a row without a positive id ends it; a URL
/// that does not parse ends it with the parse error; otherwise the feed is
/// fetched with its validators.
pub open spec fn refresh_begin(url: Seq<char>, row: Option<FeedRowView>) -> (Option<RefreshView>, RefreshActionView) {
    match row {
        None => (None, RefreshActionView::Finish(Err("feed not found or has no subscribers"@))),
        Some(r) => {
            let feed_id = (match r.id { Some(i) => i, None => 0 }) as i32;
            if feed_id <= 0 {
                (None, RefreshActionView::Finish(Err("feed id missing"@)))
            } else {
                match url_parse_result(url) {
                    Err(e) => (None, RefreshActionView::Finish(Err(e))),
                    Ok(u) => (
                        Some(RefreshView {
                            feed_id,
                            interval: row_interval(r),
                            failures: row_failures(r),
                            etag: r.etag,
                            last_modified: r.last_modified,
                            phase: RefreshPhaseView::AwaitDocument,
                        }),
                        RefreshActionView::FetchDocument { url: u, headers: conditional_headers(r.etag, r.last_modified) },
                    ),
                }
            }
        },
    }
}

/// The failure record for a refresh: one more failure, backed off.
pub open spec fn failure_update(s: RefreshView, status: i32, message: Seq<char>) -> StatusUpdateView {
    StatusUpdateView::Failure {
        http_status: status,
        error_message: message,
        consecutive_failures: (s.failures + 1) as i64,
        next_fetch_in_minutes: backoff(s.interval as int, s.failures + 1) as i64,
    }
}

/// The success record: the next fetch comes after the feed's own interval.
pub open spec fn success_update(s: RefreshView, status: i32, etag: Option<Seq<char>>, last_modified: Option<Seq<char>>) -> StatusUpdateView {
    StatusUpdateView::Success {
        http_status: status,
        etag,
        last_modified,
        next_fetch_in_minutes: s.interval,
    }
}

/// The first articles of a parse, as many as one fetch stores.
pub open spec fn first_articles(a: Seq<ArticleView>) -> Seq<ArticleView> {
    if a.len() <= MAX_ARTICLES_PER_FETCH { a } else { a.subrange(0, MAX_ARTICLES_PER_FETCH as int) }
}

pub open spec fn count_or_zero(c: Option<i64>) -> i64 {
    match c {
        Some(n) => n,
        None => 0,
    }
}

/// `after - before`, held to the `i64` range.
pub open spec fn saturating_difference(after: i64, before: i64) -> i64 {
    let d = after - before;
    if d > i64::MAX { i64::MAX } else if d < i64::MIN { i64::MIN } else { d as i64 }
}

/// Which event each waiting phase takes.
pub open spec fn refresh_expects(s: RefreshView, e: RefreshEventView) -> bool {
    match s.phase {
        RefreshPhaseView::AwaitDocument => e is Fetched,
        RefreshPhaseView::AwaitRecord(_) => e is StatusRecorded,
        RefreshPhaseView::AwaitCountBefore { .. } => e is Counted,
        RefreshPhaseView::AwaitSubscribed { .. } => e is Subscribed,
        RefreshPhaseView::AwaitInserted { .. } => e is Inserted,
        RefreshPhaseView::AwaitCountAfter { .. } => e is Counted,
        RefreshPhaseView::Finished => false,
    }
}

/// One step of a refresh.
///
/// - A failed GET ends the refresh with its error, recording nothing.
/// - 304 Not Modified is a success that parses nothing: the validators that
///   were sent are stored again and the refresh ends with 0 new articles.
/// - Any other non-2xx status is recorded as a failure ("feed returned HTTP
///   <status>") and ends the refresh with that error.
/// - A 2xx body is parsed after counting the stored articles; a parse error is
///   recorded as a failure and ends the refresh with it.
/// - When no device subscribes any more, nothing is stored or recorded and the
///   refresh ends with 0; otherwise the first articles are stored, the count
///   is taken again, success is recorded with the new validators, and the
///   refresh ends with the number of new articles.
pub open spec fn refresh_step(s: RefreshView, e: RefreshEventView) -> (RefreshView, RefreshActionView) {
    let done = RefreshView { phase: RefreshPhaseView::Finished, ..s };
    match s.phase {
        RefreshPhaseView::AwaitDocument => match e {
            RefreshEventView::Fetched(Err(m)) => (done, RefreshActionView::Finish(Err(m))),
            RefreshEventView::Fetched(Ok(f)) => {
                let status = f.status as i32;
                if f.status == 304 {
                    (RefreshView { phase: RefreshPhaseView::AwaitRecord(Ok(0)), ..s },
                        RefreshActionView::RecordStatus(success_update(s, status, s.etag, s.last_modified)))
                } else if !success_status(f.status as int) {
                    let m = msg_http_status(f.status);
                    (RefreshView { phase: RefreshPhaseView::AwaitRecord(Err(m)), ..s },
                        RefreshActionView::RecordStatus(failure_update(s, status, m)))
                } else {
                    (RefreshView {
                        phase: RefreshPhaseView::AwaitCountBefore {
                            status,
                            body: f.body,
                            etag: non_empty(f.etag),
                            last_modified: non_empty(f.last_modified),
                        },
                        ..s
                    }, RefreshActionView::CountArticles)
                }
            },
            _ => (done, RefreshActionView::Finish(Err(Seq::empty()))),
        },
        RefreshPhaseView::AwaitRecord(result) => (done, RefreshActionView::Finish(result)),
        RefreshPhaseView::AwaitCountBefore { status, body, etag, last_modified } => match e {
            RefreshEventView::Counted(counted) => {
                let before = count_or_zero(counted);
                match document_articles(body, s.feed_id) {
                Err(m) => (RefreshView { phase: RefreshPhaseView::AwaitRecord(Err(m)), ..s },
                    RefreshActionView::RecordStatus(failure_update(s, status, m))),
                Ok(articles) => (RefreshView {
                    phase: RefreshPhaseView::AwaitSubscribed { status, etag, last_modified, before, articles },
                    ..s
                }, RefreshActionView::CheckSubscribed),
                }
            },
            _ => (done, RefreshActionView::Finish(Err(Seq::empty()))),
        },
        RefreshPhaseView::AwaitSubscribed { status, etag, last_modified, before, articles } => match e {
            RefreshEventView::Subscribed(true) => (RefreshView {
                phase: RefreshPhaseView::AwaitInserted { status, etag, last_modified, before },
                ..s
            }, RefreshActionView::InsertArticles(first_articles(articles))),
            _ => (done, RefreshActionView::Finish(Ok(0))),
        },
        RefreshPhaseView::AwaitInserted { status, etag, last_modified, before } => (RefreshView {
            phase: RefreshPhaseView::AwaitCountAfter { status, etag, last_modified, before },
            ..s
        }, RefreshActionView::CountArticles),
        RefreshPhaseView::AwaitCountAfter { status, etag, last_modified, before } => match e {
            RefreshEventView::Counted(counted) => {
                let inserted = saturating_difference(count_or_zero(counted), before);
                (RefreshView { phase: RefreshPhaseView::AwaitRecord(Ok(inserted as usize)), ..s },
                    RefreshActionView::RecordStatus(success_update(s, status, etag, last_modified)))
            },
            _ => (done, RefreshActionView::Finish(Err(Seq::empty()))),
        },
        RefreshPhaseView::Finished => (done, RefreshActionView::Finish(Err(Seq::empty()))),
    }
}

fn conditional_header_list(etag: &Option<String>, last_modified: &Option<String>) -> (r: Vec<(String, String)>)
    ensures
        header_pairs(r) == conditional_headers(opt_text(*etag), opt_text(*last_modified)),
{
    let mut headers: Vec<(String, String)> = Vec::new();
    if let Some(e) = etag {
        if !e.as_str().is_empty() {
            headers.push((String::from_str("If-None-Match"), e.clone()));
        }
    }
    let ghost first = header_pairs(headers);
    if let Some(l) = last_modified {
        if !l.as_str().is_empty() {
            headers.push((String::from_str("If-Modified-Since"), l.clone()));
            assert(header_pairs(headers) =~= first.push((lit_if_modified_since(), l@)));
        }
    }
    assert(header_pairs(headers) =~= conditional_headers(opt_text(*etag), opt_text(*last_modified)));
    headers
}

impl FeedRefresh {
    /// What holds between steps: one more failure, and its back-off, fit in
    /// `i64`.
    pub closed spec fn wf(&self) -> bool {
        self.failures < i64::MAX && backoff_fits(self.interval as int, self.failures + 1)
    }

    /// The id of the feed being refreshed.
    pub fn feed_id(&self) -> (r: i32)
        ensures
            r == self@.feed_id,
    {
        self.feed_id
    }

    /// Starts a refresh of the feed at `url` from its row (looked up by URL,
    /// and only when some device subscribes).
    pub fn begin(url: &str, row: Option<FeedRow>) -> (r: (Option<FeedRefresh>, RefreshAction))
        requires
            row matches Some(rw) ==> row_fits(rw@),
        ensures
            (match r.0 { Some(m) => Some(m@), None => None::<RefreshView> }, r.1@)
                == refresh_begin(url@, match row { Some(rw) => Some(rw@), None => None::<FeedRowView> }),
            r.0 matches Some(m) ==> m.wf(),
    {
        let row = match row {
            Some(rw) => rw,
            None => {
                return (None, RefreshAction::Finish(Err(String::from_str("feed not found or has no subscribers"))));
            },
        };
        let raw_id = match row.id {
            Some(i) => i,
            None => 0,
        };
        let feed_id = raw_id as i32;
        if feed_id <= 0 {
            return (None, RefreshAction::Finish(Err(String::from_str("feed id missing"))));
        }
        let url = match FeedUrl::parse(url) {
            Ok(u) => u,
            Err(e) => {
                return (None, RefreshAction::Finish(Err(e)));
            },
        };
        let interval = match row.fetch_interval_minutes {
            Some(i) => i,
            None => DEFAULT_FETCH_INTERVAL_MINUTES,
        };
        let failures = match row.consecutive_failures {
            Some(f) => f,
            None => 0,
        };
        let headers = conditional_header_list(&row.etag, &row.last_modified);
        let machine = FeedRefresh {
            feed_id,
            interval,
            failures,
            etag: row.etag,
            last_modified: row.last_modified,
            phase: RefreshPhase::AwaitDocument,
        };
        (Some(machine), RefreshAction::FetchDocument { url, headers })
    }

    /// Whether the refresh is waiting for this kind of event.
    pub fn expects(&self, e: &RefreshEvent) -> (r: bool)
        ensures
            r == refresh_expects(self@, e@),
    {
        match &self.phase {
            RefreshPhase::AwaitDocument => matches!(e, RefreshEvent::Fetched(_)),
            RefreshPhase::AwaitRecord(_) => matches!(e, RefreshEvent::StatusRecorded),
            RefreshPhase::AwaitCountBefore { .. } => matches!(e, RefreshEvent::Counted(_)),
            RefreshPhase::AwaitSubscribed { .. } => matches!(e, RefreshEvent::Subscribed(_)),
            RefreshPhase::AwaitInserted { .. } => matches!(e, RefreshEvent::Inserted),
            RefreshPhase::AwaitCountAfter { .. } => matches!(e, RefreshEvent::Counted(_)),
            RefreshPhase::Finished => false,
        }
    }

    fn failure(&self, status: i32, message: String) -> (r: StatusUpdate)
        requires
            self.wf(),
        ensures
            r@ == failure_update(self@, status, message@),
    {
        let failures = self.failures + 1;
        StatusUpdate::Failure {
            http_status: status,
            error_message: message,
            consecutive_failures: failures,
            next_fetch_in_minutes: backoff_minutes(self.interval, failures),
        }
    }

    fn success(&self, status: i32, etag: Option<String>, last_modified: Option<String>) -> (r: StatusUpdate)
        ensures
            r@ == success_update(self@, status, opt_text(etag), opt_text(last_modified)),
    {
        StatusUpdate::Success { http_status: status, etag, last_modified, next_fetch_in_minutes: self.interval }
    }

    /// Applies what came of the last action and gives the next one. A 304 is
    /// never parsed, articles are stored only right after a device was found
    /// still subscribed, at most `MAX_ARTICLES_PER_FETCH` of them, and a
    /// failure is always recorded with one more failure and its back-off.
    pub fn step(&mut self, e: RefreshEvent) -> (r: RefreshAction)
        requires
            old(self).wf(),
            refresh_expects(old(self)@, e@),
        ensures
            (final(self)@, r@) == refresh_step(old(self)@, e@),
            final(self).wf(),
            r@ matches RefreshActionView::InsertArticles(a) ==> a.len() <= MAX_ARTICLES_PER_FETCH,
            r@ is InsertArticles ==> e@ matches RefreshEventView::Subscribed(true),
    {
        let mut phase = RefreshPhase::Finished;
        std::mem::swap(&mut phase, &mut self.phase);
        match phase {
            RefreshPhase::AwaitDocument => match e {
                RefreshEvent::Fetched(Err(m)) => RefreshAction::Finish(Err(m)),
                RefreshEvent::Fetched(Ok(f)) => {
                    let status = f.status as i32;
                    if f.status == 304 {
                        self.phase = RefreshPhase::AwaitRecord(Ok(0));
                        RefreshAction::RecordStatus(self.success(status, self.etag.clone(), self.last_modified.clone()))
                    } else if !(200 <= f.status && f.status < 300) {
                        let m = http_status_message(f.status);
                        let update = self.failure(status, m.clone());
                        self.phase = RefreshPhase::AwaitRecord(Err(m));
                        RefreshAction::RecordStatus(update)
                    } else {
                        let etag = match f.etag {
                            Some(v) => if v.as_str().is_empty() { None } else { Some(v) },
                            None => None,
                        };
                        let last_modified = match f.last_modified {
                            Some(v) => if v.as_str().is_empty() { None } else { Some(v) },
                            None => None,
                        };
                        self.phase = RefreshPhase::AwaitCountBefore { status, body: f.body, etag, last_modified };
                        RefreshAction::CountArticles
                    }
                },
                _ => RefreshAction::Finish(Err(String::new())),
            },
            RefreshPhase::AwaitRecord(result) => RefreshAction::Finish(result),
            RefreshPhase::AwaitCountBefore { status, body, etag, last_modified } => match e {
                RefreshEvent::Counted(counted) => {
                    let before = match counted {
                        Some(n) => n,
                        None => 0,
                    };
                    let parsed = parse_document(body.as_str(), self.feed_id);
                    match parsed {
                        Err(err) => {
                            let update = self.failure(status, err.message.clone());
                            self.phase = RefreshPhase::AwaitRecord(Err(err.message));
                            RefreshAction::RecordStatus(update)
                        },
                        Ok(articles) => {
                            self.phase = RefreshPhase::AwaitSubscribed { status, etag, last_modified, before, articles };
                            RefreshAction::CheckSubscribed
                        },
                    }
                },
                _ => RefreshAction::Finish(Err(String::new())),
            },
            RefreshPhase::AwaitSubscribed { status, etag, last_modified, before, articles } => match e {
                RefreshEvent::Subscribed(true) => {
                    let mut articles = articles;
                    let ghost all = article_seq(articles);
                    articles.truncate(MAX_ARTICLES_PER_FETCH);
                    assert(article_seq(articles) =~= first_articles(all));
                    self.phase = RefreshPhase::AwaitInserted { status, etag, last_modified, before };
                    RefreshAction::InsertArticles(articles)
                },
                _ => RefreshAction::Finish(Ok(0)),
            },
            RefreshPhase::AwaitInserted { status, etag, last_modified, before } => {
                self.phase = RefreshPhase::AwaitCountAfter { status, etag, last_modified, before };
                RefreshAction::CountArticles
            },
            RefreshPhase::AwaitCountAfter { status, etag, last_modified, before } => match e {
                RefreshEvent::Counted(counted) => {
                    let after = match counted {
                        Some(n) => n,
                        None => 0,
                    };
                    let d: i128 = after as i128 - before as i128;
                    let inserted: i64 = if d > 0x7fff_ffff_ffff_ffff {
                        i64::MAX
                    } else if d < -0x8000_0000_0000_0000 {
                        i64::MIN
                    } else {
                        d as i64
                    };
                    self.phase = RefreshPhase::AwaitRecord(Ok(inserted as usize));
                    RefreshAction::RecordStatus(self.success(status, etag, last_modified))
                },
                _ => RefreshAction::Finish(Err(String::new())),
            },
            RefreshPhase::Finished => RefreshAction::Finish(Err(String::new())),
        }
    }
}


/// Every failure a refresh records counts one more consecutive failure and
/// puts the next attempt off by the back-off for that count: at most a day,
/// and at least the feed's interval (5 minutes at least) unless that exceeds
/// a day. Every success puts the next fetch off by exactly the feed's
/// interval.
pub proof fn recorded_outcomes_schedule_the_next_fetch(s: RefreshView, e: RefreshEventView)
    requires
        refresh_expects(s, e),
        s.failures < i64::MAX,
        backoff_fits(s.interval as int, s.failures + 1),
    ensures
        match refresh_step(s, e).1 {
            RefreshActionView::RecordStatus(StatusUpdateView::Failure { consecutive_failures, next_fetch_in_minutes, .. }) => {
                &&& consecutive_failures == s.failures + 1
                &&& next_fetch_in_minutes == backoff(s.interval as int, s.failures + 1)
                &&& next_fetch_in_minutes <= crate::fetch::MAX_BACKOFF_MINUTES
                &&& next_fetch_in_minutes >= if crate::fetch::backoff_base(s.interval as int) < crate::fetch::MAX_BACKOFF_MINUTES {
                    crate::fetch::backoff_base(s.interval as int)
                } else {
                    crate::fetch::MAX_BACKOFF_MINUTES as int
                }
            },
            RefreshActionView::RecordStatus(StatusUpdateView::Success { next_fetch_in_minutes, .. }) =>
                next_fetch_in_minutes == s.interval,
            _ => true,
        },
{
    crate::fetch::backoff_is_bounded_and_monotone(s.interval as int, s.failures + 1, s.failures + 1);
}

/// A 304 Not Modified is a success that parses and stores nothing: the
/// validators that were sent are recorded again (so the next fetch stays
/// conditional) and the refresh ends with 0 new articles.
pub proof fn not_modified_keeps_validators(s: RefreshView, f: FetchedView)
    requires
        s.phase is AwaitDocument,
        f.status == 304,
    ensures
        refresh_step(s, RefreshEventView::Fetched(Ok(f))) == (
            RefreshView { phase: RefreshPhaseView::AwaitRecord(Ok(0)), ..s },
            RefreshActionView::RecordStatus(success_update(s, 304, s.etag, s.last_modified)),
        ),
        refresh_step(RefreshView { phase: RefreshPhaseView::AwaitRecord(Ok(0)), ..s }, RefreshEventView::StatusRecorded).1
            == RefreshActionView::Finish(Ok(0)),
{
}


/// A refresh sends back exactly the validators the feed row stores: one
/// header per non-empty stored validator, `If-None-Match` carrying the ETag
/// first, then `If-Modified-Since` carrying the Last-Modified value; an
/// empty or missing validator sends nothing.
pub proof fn stored_validators_are_sent_back(url: Seq<char>, r: FeedRowView)
    ensures
        refresh_begin(url, Some(r)).1 matches RefreshActionView::FetchDocument { headers, .. } ==> ({
            let send_etag = crate::fetch::carries_text(r.etag);
            let send_lm = crate::fetch::carries_text(r.last_modified);
            &&& headers.len() == (if send_etag { 1int } else { 0int }) + (if send_lm { 1int } else { 0int })
            &&& send_etag ==> headers[0] == (lit_if_none_match(), r.etag.unwrap())
            &&& send_lm ==> headers[headers.len() - 1] == (lit_if_modified_since(), r.last_modified.unwrap())
        }),
{
}

}
