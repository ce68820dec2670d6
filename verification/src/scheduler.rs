//! The cron scheduler's decisions: the per-minute run key that makes a cron
//! tick idempotent, and which due feeds become jobs.
use vstd::prelude::*;
use crate::digits::{fixed_digits, lemma_fixed_digits_len};
use crate::queue::{FetchJob, FetchJobView};
use crate::text::{chars_of, string_from};
use crate::time::{sqlite_now, sqlite_text, year_magnitude, year_text, UtcDateTime};

verus! {

/// The key of the run for a minute: the first 16 characters of the SQLite
/// timestamp, `YYYY-MM-DD HH:MM`.
pub open spec fn run_key_of(now: Seq<char>) -> Seq<char> {
    now.subrange(0, 16)
}

proof fn lemma_year_text_nonempty(y: int)
    ensures
        year_text(y).len() >= 1,
{
    if 0 <= y <= 9999 {
        lemma_fixed_digits_len(y as nat, 4);
    } else {
        let n: nat = if y < 0 { (-y) as nat } else { y as nat };
        if n < 10000 {
            lemma_fixed_digits_len(n, 4);
        }
        assert(year_magnitude(n).len() >= 0);
    }
}

proof fn lemma_sqlite_text_len(t: UtcDateTime)
    ensures
        sqlite_text(t).len() >= 16,
{
    lemma_year_text_nonempty(t.year as int);
    lemma_fixed_digits_len(t.month as nat, 2);
    lemma_fixed_digits_len(t.day as nat, 2);
    lemma_fixed_digits_len(t.hour as nat, 2);
    lemma_fixed_digits_len(t.minute as nat, 2);
    lemma_fixed_digits_len(t.shown_second() as nat, 2);
}

/// The run key of the current minute. Re-fires of the cron within the same
/// minute share it, so a minute is scheduled at most once.
pub fn current_run_key() -> (r: String)
    ensures
        exists|t: UtcDateTime| #[trigger] t.is_valid() && r@ == run_key_of(sqlite_text(t)),
{
    let now = sqlite_now();
    let ghost t = choose|t: UtcDateTime| #[trigger] t.is_valid() && now@ == sqlite_text(t);
    proof {
        lemma_sqlite_text_len(t);
    }
    let v = chars_of(now.as_str());
    string_from(&v, 0, 16)
}

/// A feed row the due-feed query returned: its id and URL as the row holds
/// them.
#[derive(Debug)]
pub struct DueFeed {
    pub id: Option<i64>,
    pub url: Option<String>,
}

pub struct DueFeedView {
    pub id: Option<i64>,
    pub url: Option<Seq<char>>,
}

impl View for DueFeed {
    type V = DueFeedView;

    open spec fn view(&self) -> DueFeedView {
        DueFeedView { id: self.id, url: match self.url { Some(u) => Some(u@), None => None } }
    }
}

/// The job for a due feed: rows without a positive id or with an empty URL
/// are skipped.
pub open spec fn due_job(f: DueFeedView) -> Option<FetchJobView> {
    let id = match f.id { Some(i) => i, None => 0 };
    let url = match f.url { Some(u) => u, None => Seq::empty() };
    if id <= 0 || url.len() == 0 {
        None
    } else {
        Some(FetchJobView { feed_id: id, url })
    }
}

/// The jobs for the due feeds, in the order the query returned them.
pub open spec fn due_jobs_of(rows: Seq<DueFeedView>) -> Seq<FetchJobView>
    decreases rows.len(),
{
    if rows.len() == 0 {
        Seq::empty()
    } else {
        let earlier = due_jobs_of(rows.drop_last());
        match due_job(rows.last()) {
            Some(j) => earlier.push(j),
            None => earlier,
        }
    }
}

pub open spec fn due_rows(rows: Vec<DueFeed>) -> Seq<DueFeedView> {
    rows@.map_values(|f: DueFeed| f@)
}

pub open spec fn job_seq(jobs: Vec<FetchJob>) -> Seq<FetchJobView> {
    jobs@.map_values(|j: FetchJob| j@)
}

/// The feed jobs to queue for the feeds found due.
pub fn due_jobs(rows: &Vec<DueFeed>) -> (r: Vec<FetchJob>)
    ensures
        job_seq(r) == due_jobs_of(due_rows(*rows)),
{
    let mut jobs: Vec<FetchJob> = Vec::new();
    let mut i: usize = 0;
    while i < rows.len()
        invariant
            i <= rows.len(),
            job_seq(jobs) == due_jobs_of(due_rows(*rows).subrange(0, i as int)),
        decreases rows.len() - i,
    {
        let ghost prefix = due_rows(*rows).subrange(0, i as int);
        let ghost next = due_rows(*rows).subrange(0, i + 1);
        assert(next.drop_last() == prefix);
        assert(next.last() == rows@[i as int]@);
        let row = &rows[i];
        let id = match row.id {
            Some(v) => v,
            None => 0,
        };
        let keep = match &row.url {
            Some(u) => id > 0 && !u.as_str().is_empty(),
            None => false,
        };
        if keep {
            let url = match &row.url {
                Some(u) => u.clone(),
                None => String::new(),
            };
            let ghost before = job_seq(jobs);
            jobs.push(FetchJob { feed_id: id, url });
            assert(job_seq(jobs) =~= before.push(due_job(rows@[i as int]@).unwrap()));
        }
        i += 1;
    }
    assert(due_rows(*rows).subrange(0, rows.len() as int) == due_rows(*rows));
    jobs
}


/// `a` falls in an earlier minute than `b`: the order of (year, month, day,
/// hour, minute).
pub open spec fn earlier_minute(a: UtcDateTime, b: UtcDateTime) -> bool {
    ||| a.year < b.year
    ||| a.year == b.year && a.month < b.month
    ||| a.year == b.year && a.month == b.month && a.day < b.day
    ||| a.year == b.year && a.month == b.month && a.day == b.day && a.hour < b.hour
    ||| a.year == b.year && a.month == b.month && a.day == b.day && a.hour == b.hour && a.minute < b.minute
}

pub open spec fn same_minute(a: UtcDateTime, b: UtcDateTime) -> bool {
    a.year == b.year && a.month == b.month && a.day == b.day && a.hour == b.hour && a.minute == b.minute
}

/// The run key, written right-nested block by block.
spec fn nested_key(t: UtcDateTime) -> Seq<char> {
    fixed_digits(t.year as nat, 4) + (seq!['-'] + (fixed_digits(t.month as nat, 2) + (seq!['-']
        + (fixed_digits(t.day as nat, 2) + (seq![' '] + (fixed_digits(t.hour as nat, 2) + (seq![':']
        + (fixed_digits(t.minute as nat, 2) + Seq::<char>::empty()))))))))
}

/// For valid date-times in the years 0..=9999, two cron ticks share a run
/// key exactly when they fall in the same minute (so a minute is scheduled at
/// most once), and run keys compare as text exactly as their minutes compare
/// in time (so closing every running run with an earlier key closes exactly
/// the runs of earlier minutes).
pub proof fn run_keys_order_like_minutes(a: UtcDateTime, b: UtcDateTime)
    requires
        a.is_valid(),
        b.is_valid(),
        0 <= a.year <= 9999,
        0 <= b.year <= 9999,
    ensures
        run_key_of(sqlite_text(a)) == run_key_of(sqlite_text(b)) <==> same_minute(a, b),
        crate::digits::text_lt(run_key_of(sqlite_text(a)), run_key_of(sqlite_text(b))) <==> earlier_minute(a, b),
{
    crate::time::lemma_pow10_small();
    lemma_sqlite_text_len(a);
    lemma_sqlite_text_len(b);
    lemma_fixed_digits_len(a.year as nat, 4);
    lemma_fixed_digits_len(a.month as nat, 2);
    lemma_fixed_digits_len(a.day as nat, 2);
    lemma_fixed_digits_len(a.hour as nat, 2);
    lemma_fixed_digits_len(a.minute as nat, 2);
    lemma_fixed_digits_len(a.shown_second() as nat, 2);
    lemma_fixed_digits_len(b.year as nat, 4);
    lemma_fixed_digits_len(b.month as nat, 2);
    lemma_fixed_digits_len(b.day as nat, 2);
    lemma_fixed_digits_len(b.hour as nat, 2);
    lemma_fixed_digits_len(b.minute as nat, 2);
    lemma_fixed_digits_len(b.shown_second() as nat, 2);
    assert(run_key_of(sqlite_text(a)) =~= nested_key(a));
    assert(run_key_of(sqlite_text(b)) =~= nested_key(b));
    let e = Seq::<char>::empty();
    crate::digits::lemma_text_lt_irreflexive(e);
    crate::time::lemma_field(a.minute as nat, b.minute as nat, 2, e, e);
    let ma = fixed_digits(a.minute as nat, 2) + e;
    let mb = fixed_digits(b.minute as nat, 2) + e;
    crate::time::lemma_sep(':', ma, mb);
    let ca = seq![':'] + ma;
    let cb = seq![':'] + mb;
    crate::time::lemma_field(a.hour as nat, b.hour as nat, 2, ca, cb);
    let ha = fixed_digits(a.hour as nat, 2) + ca;
    let hb = fixed_digits(b.hour as nat, 2) + cb;
    crate::time::lemma_sep(' ', ha, hb);
    let sa = seq![' '] + ha;
    let sb = seq![' '] + hb;
    crate::time::lemma_field(a.day as nat, b.day as nat, 2, sa, sb);
    let da = fixed_digits(a.day as nat, 2) + sa;
    let db = fixed_digits(b.day as nat, 2) + sb;
    crate::time::lemma_sep('-', da, db);
    let d2a = seq!['-'] + da;
    let d2b = seq!['-'] + db;
    crate::time::lemma_field(a.month as nat, b.month as nat, 2, d2a, d2b);
    let moa = fixed_digits(a.month as nat, 2) + d2a;
    let mob = fixed_digits(b.month as nat, 2) + d2b;
    crate::time::lemma_sep('-', moa, mob);
    let m2a = seq!['-'] + moa;
    let m2b = seq!['-'] + mob;
    crate::time::lemma_field(a.year as nat, b.year as nat, 4, m2a, m2b);
}

}
