//! The fetch queue: the job payload contract (which messages are handled,
//! and by which pipeline), what each handled message reports to its run, and
//! the lifecycle of a scheduler run (`fetch_runs`).
use vstd::prelude::*;
use crate::text::{push_str, str_eq};

verus! {

/// A job for the shared-pool pipeline (`type: "feed_fetch"`, or an untyped
/// payload carrying `feed_id`).
#[derive(Debug, Clone)]
pub struct FetchJob {
    pub feed_id: i64,
    pub url: String,
}

/// A job for the dormant user-scoped pipeline (`type: "source_fetch"`, or an
/// untyped payload carrying `source_id` and `user_id`).
#[derive(Debug, Clone)]
pub struct SourceJob {
    pub source_id: i64,
    pub user_id: String,
    pub url: String,
}

pub struct FetchJobView {
    pub feed_id: i64,
    pub url: Seq<char>,
}

pub struct SourceJobView {
    pub source_id: i64,
    pub user_id: Seq<char>,
    pub url: Seq<char>,
}

impl View for FetchJob {
    type V = FetchJobView;

    open spec fn view(&self) -> FetchJobView {
        FetchJobView { feed_id: self.feed_id, url: self.url@ }
    }
}

impl View for SourceJob {
    type V = SourceJobView;

    open spec fn view(&self) -> SourceJobView {
        SourceJobView { source_id: self.source_id, user_id: self.user_id@, url: self.url@ }
    }
}

/// The `type` field of a message.
#[derive(Debug)]
pub enum TypeField {
    Absent,
    Text(String),
    /// Present but not a string.
    Other,
}

/// A queue message (a JSON object) as the router reads it.
#[derive(Debug)]
pub struct JobMessage {
    pub kind: TypeField,
    /// `version`, when it is an integer.
    pub version: Option<i64>,
    /// `version` as JSON text, when present.
    pub version_text: Option<String>,
    pub has_user_id: bool,
    pub has_source_id: bool,
    pub has_feed_id: bool,
    /// The message read as a [`SourceJob`], when it has that shape.
    pub source_job: Option<SourceJob>,
    /// The message read as a [`FetchJob`], when it has that shape.
    pub fetch_job: Option<FetchJob>,
    /// The whole message as JSON text.
    pub text: String,
}

pub enum TypeFieldView {
    Absent,
    Text(Seq<char>),
    Other,
}

pub struct JobMessageView {
    pub kind: TypeFieldView,
    pub version: Option<i64>,
    pub version_text: Option<Seq<char>>,
    pub has_user_id: bool,
    pub has_source_id: bool,
    pub has_feed_id: bool,
    pub source_job: Option<SourceJobView>,
    pub fetch_job: Option<FetchJobView>,
    pub text: Seq<char>,
}

impl View for JobMessage {
    type V = JobMessageView;

    open spec fn view(&self) -> JobMessageView {
        JobMessageView {
            kind: match self.kind {
                TypeField::Absent => TypeFieldView::Absent,
                TypeField::Text(t) => TypeFieldView::Text(t@),
                TypeField::Other => TypeFieldView::Other,
            },
            version: self.version,
            version_text: match self.version_text { Some(t) => Some(t@), None => None },
            has_user_id: self.has_user_id,
            has_source_id: self.has_source_id,
            has_feed_id: self.has_feed_id,
            source_job: match self.source_job { Some(j) => Some(j@), None => None },
            fetch_job: match self.fetch_job { Some(j) => Some(j@), None => None },
            text: self.text@,
        }
    }
}

/// How one queue message is handled.
#[derive(Debug)]
pub enum RoutedJob {
    /// User-scoped source job.
    Source(SourceJob),
    /// Shared-pool feed job.
    Feed(FetchJob),
    /// A type or version not understood, or a malformed payload: dropped,
    /// with the reason.
    Unsupported(String),
}

pub enum RoutedView {
    Source(SourceJobView),
    Feed(FetchJobView),
    Unsupported(Seq<char>),
}

impl View for RoutedJob {
    type V = RoutedView;

    open spec fn view(&self) -> RoutedView {
        match self {
            RoutedJob::Source(j) => RoutedView::Source(j@),
            RoutedJob::Feed(j) => RoutedView::Feed(j@),
            RoutedJob::Unsupported(r) => RoutedView::Unsupported(r@),
        }
    }
}

pub open spec fn source_or(j: Option<SourceJobView>, reason: Seq<char>) -> RoutedView {
    match j {
        Some(j) => RoutedView::Source(j),
        None => RoutedView::Unsupported(reason),
    }
}

pub open spec fn feed_or(j: Option<FetchJobView>, reason: Seq<char>) -> RoutedView {
    match j {
        Some(j) => RoutedView::Feed(j),
        None => RoutedView::Unsupported(reason),
    }
}

/// The job payload contract.
///
/// - A message with a string `type` must carry `version: 1`; any other
///   version (or none) is unsupported, never handled as version 1. Then
///   `source_fetch` and `feed_fetch` select the pipeline (a payload without
///   the job's fields is unsupported) and any other type is unsupported.
/// - A message without `type` is the earlier shape, routed by its fields:
///   `source_id` with `user_id` to the source pipeline, else `feed_id` to the
///   feed pipeline, else unsupported. Its `version` is ignored.
/// - A `type` that is not a string is unsupported.
pub open spec fn route(m: JobMessageView) -> RoutedView {
    match m.kind {
        TypeFieldView::Absent => if m.has_user_id && m.has_source_id {
            source_or(m.source_job, "malformed legacy source job: "@ + m.text)
        } else if m.has_feed_id {
            feed_or(m.fetch_job, "malformed legacy feed job: "@ + m.text)
        } else {
            RoutedView::Unsupported("unparseable job (no type field): "@ + m.text)
        },
        TypeFieldView::Text(kind) => if m.version != Some(1i64) {
            let version = match m.version_text { Some(v) => v, None => "missing"@ };
            RoutedView::Unsupported("unsupported job version="@ + version + " type="@ + kind + ": "@ + m.text)
        } else if kind == "source_fetch"@ {
            source_or(m.source_job, "malformed source_fetch job: "@ + m.text)
        } else if kind == "feed_fetch"@ {
            feed_or(m.fetch_job, "malformed feed_fetch job: "@ + m.text)
        } else {
            RoutedView::Unsupported("unsupported job type="@ + kind + ": "@ + m.text)
        },
        TypeFieldView::Other => RoutedView::Unsupported("malformed job type field: "@ + m.text),
    }
}

fn reason(prefix: &str, text: &str) -> (r: String)
    ensures
        r@ == prefix@ + text@,
{
    crate::text::concat2(prefix, text)
}

/// Routes a message to its handler, honouring the job payload contract.
pub fn route_job(raw: JobMessage) -> (r: RoutedJob)
    ensures
        r@ == route(raw@),
{
    match raw.kind {
        TypeField::Absent => {
            if raw.has_user_id && raw.has_source_id {
                return match raw.source_job {
                    Some(job) => RoutedJob::Source(job),
                    None => RoutedJob::Unsupported(reason("malformed legacy source job: ", raw.text.as_str())),
                };
            }
            if raw.has_feed_id {
                return match raw.fetch_job {
                    Some(job) => RoutedJob::Feed(job),
                    None => RoutedJob::Unsupported(reason("malformed legacy feed job: ", raw.text.as_str())),
                };
            }
            RoutedJob::Unsupported(reason("unparseable job (no type field): ", raw.text.as_str()))
        },
        TypeField::Text(kind) => {
            let is_v1 = match raw.version {
                Some(v) => v == 1,
                None => false,
            };
            if !is_v1 {
                let mut m = String::new();
                push_str(&mut m, "unsupported job version=");
                match &raw.version_text {
                    Some(v) => push_str(&mut m, v.as_str()),
                    None => push_str(&mut m, "missing"),
                }
                push_str(&mut m, " type=");
                push_str(&mut m, kind.as_str());
                push_str(&mut m, ": ");
                push_str(&mut m, raw.text.as_str());
                return RoutedJob::Unsupported(m);
            }
            if str_eq(kind.as_str(), "source_fetch") {
                match raw.source_job {
                    Some(job) => RoutedJob::Source(job),
                    None => RoutedJob::Unsupported(reason("malformed source_fetch job: ", raw.text.as_str())),
                }
            } else if str_eq(kind.as_str(), "feed_fetch") {
                match raw.fetch_job {
                    Some(job) => RoutedJob::Feed(job),
                    None => RoutedJob::Unsupported(reason("malformed feed_fetch job: ", raw.text.as_str())),
                }
            } else {
                let mut m = String::new();
                push_str(&mut m, "unsupported job type=");
                push_str(&mut m, kind.as_str());
                push_str(&mut m, ": ");
                push_str(&mut m, raw.text.as_str());
                RoutedJob::Unsupported(m)
            }
        },
        TypeField::Other => RoutedJob::Unsupported(reason("malformed job type field: ", raw.text.as_str())),
    }
}


// ---------------------------------------------------------------------------
// what a job reports to its run

/// How handling a routed job ended.
#[derive(Debug, Clone, Copy)]
pub enum JobResult {
    /// The handler succeeded, storing this many new articles.
    Succeeded(usize),
    /// The handler failed.
    Failed,
    /// No handler ran (the message was unsupported).
    NotRun,
}

/// The increments one job adds to its run's counters.
#[derive(Debug, Clone, Copy, PartialEq, Eq, Structural)]
pub struct RunReport {
    pub fetched: i64,
    pub failed: i64,
    pub inserted: i64,
}

/// A handled source job counts as fetched; a handled feed job counts as
/// fetched with its new articles; a failed job, and an unsupported message
/// (so that a run receiving only such messages still ends), count as failed.
pub open spec fn report_of(job: RoutedView, result: JobResult) -> RunReport {
    match job {
        RoutedView::Unsupported(_) => RunReport { fetched: 0, failed: 1, inserted: 0 },
        RoutedView::Source(_) => match result {
            JobResult::Succeeded(_) => RunReport { fetched: 1, failed: 0, inserted: 0 },
            _ => RunReport { fetched: 0, failed: 1, inserted: 0 },
        },
        RoutedView::Feed(_) => match result {
            JobResult::Succeeded(n) => RunReport { fetched: 1, failed: 0, inserted: n as i64 },
            _ => RunReport { fetched: 0, failed: 1, inserted: 0 },
        },
    }
}

/// What one handled message reports to its run.
pub fn run_report(job: &RoutedJob, result: JobResult) -> (r: RunReport)
    ensures
        r == report_of(job@, result),
{
    match job {
        RoutedJob::Unsupported(_) => RunReport { fetched: 0, failed: 1, inserted: 0 },
        RoutedJob::Source(_) => match result {
            JobResult::Succeeded(_) => RunReport { fetched: 1, failed: 0, inserted: 0 },
            _ => RunReport { fetched: 0, failed: 1, inserted: 0 },
        },
        RoutedJob::Feed(_) => match result {
            JobResult::Succeeded(n) => RunReport { fetched: 1, failed: 0, inserted: n as i64 },
            _ => RunReport { fetched: 0, failed: 1, inserted: 0 },
        },
    }
}

// ---------------------------------------------------------------------------
// scheduler runs

/// The status of a scheduler run.
#[derive(Debug, Clone, Copy, PartialEq, Eq, Structural)]
pub enum RunStatus {
    Running,
    AllOk,
    Partial,
    Failed,
}

/// The name a status has in storage.
pub open spec fn status_name(s: RunStatus) -> Seq<char> {
    match s {
        RunStatus::Running => "running"@,
        RunStatus::AllOk => "ok"@,
        RunStatus::Partial => "partial"@,
        RunStatus::Failed => "failed"@,
    }
}

/// The terminal status of a run once every scheduled job has reported, or
/// `None` while it is in flight (nothing scheduled yet, or fewer reports than
/// jobs). Late or repeated reports may push the totals past the schedule;
/// that still ends the run. Any failure rules out `ok`.
pub open spec fn run_terminal(scheduled: int, fetched: int, failed: int) -> Option<RunStatus> {
    if scheduled <= 0 || fetched + failed < scheduled {
        None
    } else if failed > 0 {
        Some(if fetched == 0 { RunStatus::Failed } else { RunStatus::Partial })
    } else {
        Some(RunStatus::AllOk)
    }
}

/// Terminal status of a scheduler run (`"ok"`, `"partial"`, `"failed"`), or
/// `None` while it is in flight.
pub fn classify_run(scheduled: i64, fetched: i64, failed: i64) -> (r: Option<&'static str>)
    requires
        i64::MIN <= fetched + failed <= i64::MAX,
    ensures
        match run_terminal(scheduled as int, fetched as int, failed as int) {
            Some(s) => r matches Some(t) && t@ == status_name(s),
            None => r is None,
        },
{
    if scheduled <= 0 || fetched + failed < scheduled {
        return None;
    }
    if failed > 0 {
        Some(if fetched == 0 { "failed" } else { "partial" })
    } else {
        Some("ok")
    }
}

/// The scheduler's side of a run row: its counters and status.
#[derive(Debug, Clone, Copy, PartialEq, Eq, Structural)]
pub struct FetchRun {
    pub scheduled: i64,
    pub fetched: i64,
    pub failed: i64,
    pub inserted: i64,
    pub status: RunStatus,
    pub finished: bool,
    pub superseded: bool,
}

/// A report applied to a run: counted only while the run is running; the run
/// ends, classified from its new totals, once they reach the schedule.
pub open spec fn after_report(run: FetchRun, r: RunReport) -> FetchRun {
    if run.status != RunStatus::Running {
        run
    } else {
        let fetched = (run.fetched + r.fetched) as i64;
        let failed = (run.failed + r.failed) as i64;
        let counted = FetchRun { fetched, failed, inserted: (run.inserted + r.inserted) as i64, ..run };
        match run_terminal(run.scheduled as int, fetched as int, failed as int) {
            Some(s) => FetchRun { status: s, finished: true, ..counted },
            None => counted,
        }
    }
}

/// Whether applying a report keeps the counters within `i64`.
pub open spec fn report_fits(run: FetchRun, r: RunReport) -> bool {
    &&& i64::MIN <= run.fetched + r.fetched <= i64::MAX
    &&& i64::MIN <= run.failed + r.failed <= i64::MAX
    &&& i64::MIN <= run.inserted + r.inserted <= i64::MAX
    &&& i64::MIN <= run.fetched + r.fetched + run.failed + r.failed <= i64::MAX
}

impl FetchRun {
    /// A run the scheduler has just opened: nothing scheduled, running.
    pub fn open() -> (r: FetchRun)
        ensures
            r == (FetchRun { scheduled: 0, fetched: 0, failed: 0, inserted: 0, status: RunStatus::Running, finished: false, superseded: false }),
    {
        FetchRun { scheduled: 0, fetched: 0, failed: 0, inserted: 0, status: RunStatus::Running, finished: false, superseded: false }
    }

    /// The scheduler has queued `total` jobs; a run with none is over, `ok`.
    pub fn set_scheduled(&mut self, total: i64)
        ensures
            *final(self) == if total == 0 {
                FetchRun { scheduled: total, finished: true, status: RunStatus::AllOk, ..*old(self) }
            } else {
                FetchRun { scheduled: total, ..*old(self) }
            },
    {
        self.scheduled = total;
        if total == 0 {
            self.finished = true;
            self.status = RunStatus::AllOk;
        }
    }

    /// A run still running when a later minute's run starts is closed as
    /// `partial`, marked superseded.
    pub fn supersede(&mut self)
        ensures
            *final(self) == if old(self).status == RunStatus::Running {
                FetchRun { status: RunStatus::Partial, superseded: true, finished: true, ..*old(self) }
            } else {
                *old(self)
            },
    {
        if self.status == RunStatus::Running {
            self.status = RunStatus::Partial;
            self.superseded = true;
            self.finished = true;
        }
    }

    /// Applies one job's report.
    pub fn record(&mut self, report: RunReport)
        requires
            report_fits(*old(self), report),
        ensures
            *final(self) == after_report(*old(self), report),
    {
        if self.status != RunStatus::Running {
            return;
        }
        self.fetched = self.fetched + report.fetched;
        self.failed = self.failed + report.failed;
        self.inserted = self.inserted + report.inserted;
        if self.scheduled > 0 && self.fetched + self.failed >= self.scheduled {
            self.finished = true;
            self.status = if self.failed > 0 {
                if self.fetched == 0 { RunStatus::Failed } else { RunStatus::Partial }
            } else {
                RunStatus::AllOk
            };
        }
    }
}

/// A run with any failure never classifies as `ok`, and `failed` only when
/// nothing was fetched.
pub proof fn failures_rule_out_ok(scheduled: int, fetched: int, failed: int)
    requires
        failed > 0,
    ensures
        run_terminal(scheduled, fetched, failed) != Some(RunStatus::AllOk),
        run_terminal(scheduled, fetched, failed) == Some(RunStatus::Failed) ==> fetched == 0,
{
}

/// Once every scheduled job has reported, the run is terminal; before that
/// (or with nothing scheduled) it is in flight.
pub proof fn reports_reaching_schedule_end_the_run(scheduled: int, fetched: int, failed: int)
    ensures
        run_terminal(scheduled, fetched, failed) is Some <==> (scheduled > 0 && fetched + failed >= scheduled),
{
}

/// Further reports never re-open a terminal classification: with counters
/// that only grow, a terminal classification stays terminal, and one with a
/// failure stays a failure.
pub proof fn more_reports_never_reopen(scheduled: int, f1: int, l1: int, f2: int, l2: int)
    requires
        f1 <= f2,
        0 <= l1 <= l2,
        run_terminal(scheduled, f1, l1) is Some,
    ensures
        run_terminal(scheduled, f2, l2) is Some,
        l1 > 0 ==> run_terminal(scheduled, f2, l2) != Some(RunStatus::AllOk),
{
}

/// A run that is no longer running ignores every report.
pub proof fn terminal_runs_are_frozen(run: FetchRun, r: RunReport)
    requires
        run.status != RunStatus::Running,
    ensures
        after_report(run, r) == run,
{
}

/// Reports with non-negative increments never lower a run's counters, and a
/// running run whose totals reach its schedule ends; with a failure counted
/// it does not end `ok`.
pub proof fn reports_accumulate(run: FetchRun, r: RunReport)
    requires
        report_fits(run, r),
        r.fetched >= 0,
        r.failed >= 0,
        r.inserted >= 0,
        run.status == RunStatus::Running,
    ensures
        after_report(run, r).fetched >= run.fetched,
        after_report(run, r).failed >= run.failed,
        after_report(run, r).inserted >= run.inserted,
        run.scheduled > 0 && run.fetched + r.fetched + run.failed + r.failed >= run.scheduled
            ==> after_report(run, r).status != RunStatus::Running && after_report(run, r).finished,
        run.failed + r.failed > 0 ==> after_report(run, r).status != RunStatus::AllOk,
{
}


/// A typed message is handled only as version 1: any other version, or
/// none, is unsupported whatever its type and fields; and an untyped message
/// is never routed by a version.
pub proof fn typed_jobs_need_version_one(m: JobMessageView)
    ensures
        (m.kind is Text && m.version != Some(1i64)) ==> route(m) is Unsupported,
        m.kind is Absent ==> route(m) == route(JobMessageView { version: None, version_text: None, ..m }),
{
}


/// A report recorded into a running run adds its increments to the run's
/// totals (fetched, failed and inserted alike) and leaves the schedule as it
/// was; a run that is no longer running keeps its totals.
pub proof fn reports_add_to_the_totals(run: FetchRun, r: RunReport)
    requires
        report_fits(run, r),
    ensures
        run.status == RunStatus::Running ==> {
            &&& after_report(run, r).fetched == run.fetched + r.fetched
            &&& after_report(run, r).failed == run.failed + r.failed
            &&& after_report(run, r).inserted == run.inserted + r.inserted
            &&& after_report(run, r).scheduled == run.scheduled
        },
        run.status != RunStatus::Running ==> after_report(run, r) == run,
{
}

}
