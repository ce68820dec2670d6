//! The dormant user-scoped source layer (`rss_sources`): the request checks
//! of its API, which the router has retired, and of its fetch pipeline,
//! which still serves queued source jobs.
use vstd::prelude::*;
use crate::numbers::{i64_text, parse_i64};
use crate::text::{push_char, trim, trimmed};
use crate::time::opt_text;
use crate::feed::{document_articles, parse_document};
use crate::fetch::{http_status_message, msg_http_status, success_status, FetchedFeed, FetchedView, MAX_ARTICLES_PER_FETCH};
use crate::refresh::{article_seq, first_articles};
use crate::types::{Article, ArticleView};
use crate::urls::{is_http_url, is_http_url_text, url_parse_result, FeedUrl, UrlView};

verus! {

/// `value` held to `1..=100000`, or `default` when absent.
pub open spec fn clamp_int_of(value: Option<i64>, default: i32) -> i32 {
    match value {
        Some(v) => (if v < 1 { 1 } else if v > 100_000 { 100_000 } else { v }) as i32,
        None => default,
    }
}

pub fn clamp_int(value: Option<i64>, default: i32) -> (r: i32)
    ensures
        r == clamp_int_of(value, default),
{
    match value {
        Some(v) => {
            let c: i64 = if v < 1 { 1 } else if v > 100_000 { 100_000 } else { v };
            c as i32
        },
        None => default,
    }
}

/// The `/`-separated segments of a path read so far: the non-empty ones
/// completed, and the one being read.
pub open spec fn segments_upto(s: Seq<char>) -> (Seq<Seq<char>>, Seq<char>)
    decreases s.len(),
{
    if s.len() == 0 {
        (Seq::empty(), Seq::empty())
    } else {
        let (done, cur) = segments_upto(s.drop_last());
        if s.last() == '/' {
            (if cur.len() > 0 { done.push(cur) } else { done }, Seq::empty())
        } else {
            (done, cur.push(s.last()))
        }
    }
}

/// The non-empty `/`-separated segments of a path, in order.
pub open spec fn path_segments(s: Seq<char>) -> Seq<Seq<char>> {
    let (done, cur) = segments_upto(s);
    if cur.len() > 0 { done.push(cur) } else { done }
}

/// The source id of `/api/sources/{id}` (and of `…/{id}/articles`,
/// `…/{id}/fetch`): the third non-empty segment, read as an `i64`.
pub open spec fn path_id(path: Seq<char>) -> Option<i64> {
    let segs = path_segments(path);
    if segs.len() > 2 { i64_text(segs[2]) } else { None }
}

pub fn parse_id_from_path(path: &str) -> (r: Option<i64>)
    ensures
        r == path_id(path@),
{
    let chars = crate::text::chars_of(path);
    let mut done: Vec<String> = Vec::new();
    let mut cur = String::new();
    let mut i: usize = 0;
    while i < chars.len()
        invariant
            i <= chars.len(),
            chars@ == path@,
            (done@.map_values(|d: String| d@), cur@) == segments_upto(path@.subrange(0, i as int)),
        decreases chars.len() - i,
    {
        let ghost prefix = path@.subrange(0, i as int);
        assert(path@.subrange(0, i + 1).drop_last() == prefix);
        let c = chars[i];
        if c == '/' {
            if !cur.as_str().is_empty() {
                let ghost before = done@.map_values(|d: String| d@);
                let finished = cur;
                done.push(finished);
                assert(done@.map_values(|d: String| d@) =~= before.push(finished@));
            }
            cur = String::new();
        } else {
            push_char(&mut cur, c);
        }
        i += 1;
    }
    assert(path@.subrange(0, chars.len() as int) == path@);
    if !cur.as_str().is_empty() {
        let ghost before = done@.map_values(|d: String| d@);
        let last = cur;
        done.push(last);
        assert(done@.map_values(|d: String| d@) =~= before.push(last@));
    }
    assert(done@.map_values(|d: String| d@) == path_segments(path@));
    if done.len() > 2 {
        assert(done@.map_values(|d: String| d@)[2] == done@[2]@);
        parse_i64(done[2].as_str())
    } else {
        None
    }
}

/// A trimmed optional text, dropped when blank.
pub open spec fn trimmed_field(v: Option<Seq<char>>) -> Option<Seq<char>> {
    match v {
        Some(t) => if trim(t).len() > 0 { Some(trim(t)) } else { None },
        None => None,
    }
}

fn trimmed_option(v: Option<String>) -> (r: Option<String>)
    ensures
        opt_text(r) == trimmed_field(opt_text(v)),
{
    match v {
        Some(t) => {
            let t = trimmed(t.as_str());
            if t.as_str().is_empty() { None } else { Some(t) }
        },
        None => None,
    }
}

/// The body of a create-source request.
#[derive(Debug)]
pub struct SourceInput {
    pub url: String,
    pub title: Option<String>,
    pub site_url: Option<String>,
    pub enabled: Option<i64>,
    pub fetch_interval_minutes: Option<i64>,
}

pub struct SourceInputView {
    pub url: Seq<char>,
    pub title: Option<Seq<char>>,
    pub site_url: Option<Seq<char>>,
    pub enabled: Option<i64>,
    pub fetch_interval_minutes: Option<i64>,
}

impl View for SourceInput {
    type V = SourceInputView;

    open spec fn view(&self) -> SourceInputView {
        SourceInputView {
            url: self.url@,
            title: opt_text(self.title),
            site_url: opt_text(self.site_url),
            enabled: self.enabled,
            fetch_interval_minutes: self.fetch_interval_minutes,
        }
    }
}

/// A source as it will be inserted.
#[derive(Debug)]
pub struct NewSource {
    pub url: String,
    pub title: Option<String>,
    pub site_url: Option<String>,
    pub enabled: i32,
    pub fetch_interval_minutes: i32,
}

pub struct NewSourceView {
    pub url: Seq<char>,
    pub title: Option<Seq<char>>,
    pub site_url: Option<Seq<char>>,
    pub enabled: i32,
    pub fetch_interval_minutes: i32,
}

impl View for NewSource {
    type V = NewSourceView;

    open spec fn view(&self) -> NewSourceView {
        NewSourceView {
            url: self.url@,
            title: opt_text(self.title),
            site_url: opt_text(self.site_url),
            enabled: self.enabled,
            fetch_interval_minutes: self.fetch_interval_minutes,
        }
    }
}

/// A create-source request checked: the URL trimmed, required and http(s);
/// blank title and site URL dropped; `enabled` (default 1) and the interval
/// (default 60) held to `1..=100000`. Both refusals are 400s.
pub open spec fn new_source_of(i: SourceInputView) -> Result<NewSourceView, Seq<char>> {
    let url = trim(i.url);
    if url.len() == 0 {
        Err("url is required"@)
    } else if !is_http_url_text(url) {
        Err("url must be http(s)"@)
    } else {
        Ok(NewSourceView {
            url,
            title: trimmed_field(i.title),
            site_url: trimmed_field(i.site_url),
            enabled: clamp_int_of(i.enabled, 1),
            fetch_interval_minutes: clamp_int_of(i.fetch_interval_minutes, 60),
        })
    }
}

pub fn new_source(input: SourceInput) -> (r: Result<NewSource, String>)
    ensures
        match r {
            Ok(s) => new_source_of(input@) == Ok::<NewSourceView, Seq<char>>(s@),
            Err(m) => new_source_of(input@) == Err::<NewSourceView, Seq<char>>(m@),
        },
{
    let url = trimmed(input.url.as_str());
    if url.as_str().is_empty() {
        return Err(String::from_str("url is required"));
    }
    if !is_http_url(url.as_str()) {
        return Err(String::from_str("url must be http(s)"));
    }
    Ok(NewSource {
        url,
        title: trimmed_option(input.title),
        site_url: trimmed_option(input.site_url),
        enabled: clamp_int(input.enabled, 1),
        fetch_interval_minutes: clamp_int(input.fetch_interval_minutes, 60),
    })
}

/// The body of an update-source request.
#[derive(Debug)]
pub struct SourceUpdateInput {
    pub url: Option<String>,
    pub title: Option<String>,
    pub site_url: Option<String>,
    pub enabled: Option<i64>,
    pub fetch_interval_minutes: Option<i64>,
}

pub struct SourceUpdateInputView {
    pub url: Option<Seq<char>>,
    pub title: Option<Seq<char>>,
    pub site_url: Option<Seq<char>>,
    pub enabled: Option<i64>,
    pub fetch_interval_minutes: Option<i64>,
}

impl View for SourceUpdateInput {
    type V = SourceUpdateInputView;

    open spec fn view(&self) -> SourceUpdateInputView {
        SourceUpdateInputView {
            url: opt_text(self.url),
            title: opt_text(self.title),
            site_url: opt_text(self.site_url),
            enabled: self.enabled,
            fetch_interval_minutes: self.fetch_interval_minutes,
        }
    }
}

/// The changes an update applies (each `None` keeps the stored value).
#[derive(Debug)]
pub struct SourceUpdate {
    pub url: Option<String>,
    pub title: Option<String>,
    pub site_url: Option<String>,
    pub enabled: Option<i32>,
    pub fetch_interval_minutes: Option<i32>,
}

pub struct SourceUpdateView {
    pub url: Option<Seq<char>>,
    pub title: Option<Seq<char>>,
    pub site_url: Option<Seq<char>>,
    pub enabled: Option<i32>,
    pub fetch_interval_minutes: Option<i32>,
}

impl View for SourceUpdate {
    type V = SourceUpdateView;

    open spec fn view(&self) -> SourceUpdateView {
        SourceUpdateView {
            url: opt_text(self.url),
            title: opt_text(self.title),
            site_url: opt_text(self.site_url),
            enabled: self.enabled,
            fetch_interval_minutes: self.fetch_interval_minutes,
        }
    }
}

/// An update request checked: texts trimmed and blank ones dropped,
/// `enabled` held to `0..=1`, the interval to `1..=100000`; an update that
/// changes nothing is refused (400 "no updates provided").
pub open spec fn source_update_of(i: SourceUpdateInputView) -> Result<SourceUpdateView, Seq<char>> {
    let u = SourceUpdateView {
        url: trimmed_field(i.url),
        title: trimmed_field(i.title),
        site_url: trimmed_field(i.site_url),
        enabled: match i.enabled { Some(v) => Some((if v < 0 { 0 } else if v > 1 { 1 } else { v }) as i32), None => None },
        fetch_interval_minutes: match i.fetch_interval_minutes {
            Some(v) => Some((if v < 1 { 1 } else if v > 100_000 { 100_000 } else { v }) as i32),
            None => None,
        },
    };
    if u.url is None && u.title is None && u.site_url is None && u.enabled is None && u.fetch_interval_minutes is None {
        Err("no updates provided"@)
    } else {
        Ok(u)
    }
}

pub fn source_update(input: SourceUpdateInput) -> (r: Result<SourceUpdate, String>)
    ensures
        match r {
            Ok(u) => source_update_of(input@) == Ok::<SourceUpdateView, Seq<char>>(u@),
            Err(m) => source_update_of(input@) == Err::<SourceUpdateView, Seq<char>>(m@),
        },
{
    let enabled = match input.enabled {
        Some(v) => {
            let c: i64 = if v < 0 { 0 } else if v > 1 { 1 } else { v };
            Some(c as i32)
        },
        None => None,
    };
    let interval = match input.fetch_interval_minutes {
        Some(v) => {
            let c: i64 = if v < 1 { 1 } else if v > 100_000 { 100_000 } else { v };
            Some(c as i32)
        },
        None => None,
    };
    let u = SourceUpdate {
        url: trimmed_option(input.url),
        title: trimmed_option(input.title),
        site_url: trimmed_option(input.site_url),
        enabled,
        fetch_interval_minutes: interval,
    };
    if u.url.is_none() && u.title.is_none() && u.site_url.is_none() && u.enabled.is_none()
        && u.fetch_interval_minutes.is_none() {
        Err(String::from_str("no updates provided"))
    } else {
        Ok(u)
    }
}


// ---------------------------------------------------------------------------
// the source fetch pipeline (queued source jobs)

/// What the worker does next for a source job.
pub enum SourceAction {
    /// Check that the source belongs to the job's user.
    CheckOwned,
    /// Run a feed GET of this URL.
    FetchDocument(FeedUrl),
    /// Record the source's status (`active` or `error`, with the message).
    MarkSource { status: String, error: Option<String> },
    /// Store these articles for the user's source.
    InsertArticles(Vec<Article>),
    /// Done.
    Finish(Result<(), String>),
}

pub enum SourceActionView {
    CheckOwned,
    FetchDocument(UrlView),
    MarkSource { status: Seq<char>, error: Option<Seq<char>> },
    InsertArticles(Seq<ArticleView>),
    Finish(Result<(), Seq<char>>),
}

impl View for SourceAction {
    type V = SourceActionView;

    open spec fn view(&self) -> SourceActionView {
        match self {
            SourceAction::CheckOwned => SourceActionView::CheckOwned,
            SourceAction::FetchDocument(u) => SourceActionView::FetchDocument(u@),
            SourceAction::MarkSource { status, error } => SourceActionView::MarkSource { status: status@, error: opt_text(*error) },
            SourceAction::InsertArticles(v) => SourceActionView::InsertArticles(article_seq(*v)),
            SourceAction::Finish(Ok(())) => SourceActionView::Finish(Ok(())),
            SourceAction::Finish(Err(m)) => SourceActionView::Finish(Err(m@)),
        }
    }
}

/// What came of the last action.
pub enum SourceEvent {
    Owned(bool),
    Fetched(Result<FetchedFeed, String>),
    Marked,
    Inserted,
}

pub enum SourceEventView {
    Owned(bool),
    Fetched(Result<FetchedView, Seq<char>>),
    Marked,
    Inserted,
}

impl View for SourceEvent {
    type V = SourceEventView;

    open spec fn view(&self) -> SourceEventView {
        match self {
            SourceEvent::Owned(b) => SourceEventView::Owned(*b),
            SourceEvent::Fetched(Ok(f)) => SourceEventView::Fetched(Ok(f@)),
            SourceEvent::Fetched(Err(m)) => SourceEventView::Fetched(Err(m@)),
            SourceEvent::Marked => SourceEventView::Marked,
            SourceEvent::Inserted => SourceEventView::Inserted,
        }
    }
}

#[derive(Debug)]
pub enum SourcePhase {
    CheckingOwned,
    Fetching,
    Marking(Result<(), String>),
    Inserting,
    Done,
}

pub enum SourcePhaseView {
    CheckingOwned,
    Fetching,
    Marking(Result<(), Seq<char>>),
    Inserting,
    Done,
}

/// A source job in progress.
pub struct SourceRefresh {
    source_id: i64,
    url: String,
    phase: SourcePhase,
}

pub struct SourceRefreshView {
    pub source_id: i64,
    pub url: Seq<char>,
    pub phase: SourcePhaseView,
}

impl View for SourceRefresh {
    type V = SourceRefreshView;

    closed spec fn view(&self) -> SourceRefreshView {
        SourceRefreshView {
            source_id: self.source_id,
            url: self.url@,
            phase: match self.phase {
                SourcePhase::CheckingOwned => SourcePhaseView::CheckingOwned,
                SourcePhase::Fetching => SourcePhaseView::Fetching,
                SourcePhase::Marking(Ok(())) => SourcePhaseView::Marking(Ok(())),
                SourcePhase::Marking(Err(m)) => SourcePhaseView::Marking(Err(m@)),
                SourcePhase::Inserting => SourcePhaseView::Inserting,
                SourcePhase::Done => SourcePhaseView::Done,
            },
        }
    }
}

pub open spec fn source_expects(p: SourcePhaseView, e: SourceEventView) -> bool {
    match p {
        SourcePhaseView::CheckingOwned => e is Owned,
        SourcePhaseView::Fetching => e is Fetched,
        SourcePhaseView::Marking(_) => e is Marked,
        SourcePhaseView::Inserting => e is Inserted,
        SourcePhaseView::Done => false,
    }
}

pub open spec fn mark_error(message: Seq<char>) -> SourceActionView {
    SourceActionView::MarkSource { status: "error"@, error: Some(message) }
}

/// One step of a source job: a source not owned by the user, an unparsable
/// URL or a failed GET ends it; a non-2xx answer or a parse error marks the
/// source `error` and ends with that message; otherwise the first articles
/// are stored and the source is marked `active`.
pub open spec fn source_step(s: SourceRefreshView, e: SourceEventView) -> (SourceRefreshView, SourceActionView) {
    let to = |p: SourcePhaseView| SourceRefreshView { phase: p, ..s };
    match (s.phase, e) {
        (SourcePhaseView::CheckingOwned, SourceEventView::Owned(false)) =>
            (to(SourcePhaseView::Done), SourceActionView::Finish(Err("source not found for user"@))),
        (SourcePhaseView::CheckingOwned, SourceEventView::Owned(true)) => match url_parse_result(s.url) {
            Err(m) => (to(SourcePhaseView::Done), SourceActionView::Finish(Err(m))),
            Ok(u) => (to(SourcePhaseView::Fetching), SourceActionView::FetchDocument(u)),
        },
        (SourcePhaseView::Fetching, SourceEventView::Fetched(Err(m))) =>
            (to(SourcePhaseView::Done), SourceActionView::Finish(Err(m))),
        (SourcePhaseView::Fetching, SourceEventView::Fetched(Ok(f))) => if !success_status(f.status as int) {
            let m = msg_http_status(f.status);
            (to(SourcePhaseView::Marking(Err(m))), mark_error(m))
        } else {
            match document_articles(f.body, s.source_id as i32) {
                Err(m) => (to(SourcePhaseView::Marking(Err(m))), mark_error(m)),
                Ok(a) => (to(SourcePhaseView::Inserting), SourceActionView::InsertArticles(first_articles(a))),
            }
        },
        (SourcePhaseView::Inserting, SourceEventView::Inserted) =>
            (to(SourcePhaseView::Marking(Ok(()))), SourceActionView::MarkSource { status: "active"@, error: None }),
        (SourcePhaseView::Marking(r), SourceEventView::Marked) => (to(SourcePhaseView::Done), SourceActionView::Finish(r)),
        _ => (to(SourcePhaseView::Done), SourceActionView::Finish(Err(Seq::empty()))),
    }
}

impl SourceRefresh {
    /// Starts a source job: first the source must belong to the user.
    pub fn begin(source_id: i64, url: &str) -> (r: (SourceRefresh, SourceAction))
        ensures
            r.0@ == (SourceRefreshView { source_id, url: url@, phase: SourcePhaseView::CheckingOwned }),
            r.1@ is CheckOwned,
    {
        (SourceRefresh { source_id, url: String::from_str(url), phase: SourcePhase::CheckingOwned }, SourceAction::CheckOwned)
    }

    pub fn expects(&self, e: &SourceEvent) -> (r: bool)
        ensures
            r == source_expects(self@.phase, e@),
    {
        match &self.phase {
            SourcePhase::CheckingOwned => matches!(e, SourceEvent::Owned(_)),
            SourcePhase::Fetching => matches!(e, SourceEvent::Fetched(_)),
            SourcePhase::Marking(_) => matches!(e, SourceEvent::Marked),
            SourcePhase::Inserting => matches!(e, SourceEvent::Inserted),
            SourcePhase::Done => false,
        }
    }

    /// Applies the answer to the last action.
    pub fn step(&mut self, e: SourceEvent) -> (r: SourceAction)
        requires
            source_expects(old(self)@.phase, e@),
        ensures
            (final(self)@, r@) == source_step(old(self)@, e@),
    {
        let mut phase = SourcePhase::Done;
        std::mem::swap(&mut phase, &mut self.phase);
        match phase {
            SourcePhase::CheckingOwned => match e {
                SourceEvent::Owned(true) => match FeedUrl::parse(self.url.as_str()) {
                    Err(m) => SourceAction::Finish(Err(m)),
                    Ok(u) => {
                        self.phase = SourcePhase::Fetching;
                        SourceAction::FetchDocument(u)
                    },
                },
                _ => SourceAction::Finish(Err(String::from_str("source not found for user"))),
            },
            SourcePhase::Fetching => match e {
                SourceEvent::Fetched(Ok(f)) => {
                    if !(200 <= f.status && f.status < 300) {
                        let m = http_status_message(f.status);
                        self.phase = SourcePhase::Marking(Err(m.clone()));
                        SourceAction::MarkSource { status: String::from_str("error"), error: Some(m) }
                    } else {
                        match parse_document(f.body.as_str(), self.source_id as i32) {
                            Err(err) => {
                                self.phase = SourcePhase::Marking(Err(err.message.clone()));
                                SourceAction::MarkSource { status: String::from_str("error"), error: Some(err.message) }
                            },
                            Ok(articles) => {
                                let mut articles = articles;
                                let ghost all = article_seq(articles);
                                articles.truncate(MAX_ARTICLES_PER_FETCH);
                                assert(article_seq(articles) =~= first_articles(all));
                                self.phase = SourcePhase::Inserting;
                                SourceAction::InsertArticles(articles)
                            },
                        }
                    }
                },
                SourceEvent::Fetched(Err(m)) => SourceAction::Finish(Err(m)),
                _ => SourceAction::Finish(Err(String::new())),
            },
            SourcePhase::Inserting => {
                self.phase = SourcePhase::Marking(Ok(()));
                SourceAction::MarkSource { status: String::from_str("active"), error: None }
            },
            SourcePhase::Marking(r) => SourceAction::Finish(r),
            SourcePhase::Done => SourceAction::Finish(Err(String::new())),
        }
    }
}

}
