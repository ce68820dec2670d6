//! Timestamps: the canonical sortable form of a feed's published time, and
//! the clock-based stamps the scheduler writes.
//!
//! The canonical form `YYYY-MM-DDTHH:MM:SSZ` (UTC, whole seconds) is the sort
//! key of `articles.published_at`: text order equals time order only while
//! every stored value has this exact shape.
use vstd::prelude::*;
use chrono::{Datelike, Timelike};
use crate::digits::{decimal, fixed_digits, text_lt};
use crate::text::{push_char, trim, trimmed};

verus! {

/// A UTC civil date-time, as chrono's `NaiveDateTime` holds it. A leap second
/// is represented as second 59 with `nanosecond >= 1_000_000_000`.
#[derive(Clone, Copy, Debug, PartialEq, Eq)]
pub struct UtcDateTime {
    pub year: i32,
    pub month: u8,
    pub day: u8,
    pub hour: u8,
    pub minute: u8,
    pub second: u8,
    pub nanosecond: u32,
}

pub open spec fn is_leap_year(y: int) -> bool {
    (y % 4 == 0 && y % 100 != 0) || y % 400 == 0
}

pub open spec fn days_in_month(y: int, m: int) -> int {
    if m == 2 {
        if is_leap_year(y) { 29 } else { 28 }
    } else if m == 4 || m == 6 || m == 9 || m == 11 {
        30
    } else {
        31
    }
}

impl UtcDateTime {
    /// The field ranges every chrono date-time satisfies.
    pub open spec fn is_valid(self) -> bool {
        &&& 1 <= self.month <= 12
        &&& 1 <= self.day <= days_in_month(self.year as int, self.month as int)
        &&& self.hour < 24
        &&& self.minute < 60
        &&& self.second < 60
        &&& self.nanosecond < 2_000_000_000
        &&& (self.nanosecond >= 1_000_000_000 ==> self.second == 59)
    }

    /// The seconds field as written: 60 for a leap second.
    pub open spec fn shown_second(self) -> int {
        if self.nanosecond >= 1_000_000_000 {
            self.second + 1
        } else {
            self.second as int
        }
    }

    /// The nanoseconds within the shown second.
    pub open spec fn shown_nanosecond(self) -> int {
        if self.nanosecond >= 1_000_000_000 {
            self.nanosecond - 1_000_000_000
        } else {
            self.nanosecond as int
        }
    }

    /// `self` falls in an earlier whole second than `other`: the order of
    /// (year, month, day, hour, minute, second).
    pub open spec fn earlier_second(self, other: Self) -> bool {
        ||| self.year < other.year
        ||| self.year == other.year && self.month < other.month
        ||| self.year == other.year && self.month == other.month && self.day < other.day
        ||| self.year == other.year && self.month == other.month && self.day == other.day
            && self.hour < other.hour
        ||| self.year == other.year && self.month == other.month && self.day == other.day
            && self.hour == other.hour && self.minute < other.minute
        ||| self.year == other.year && self.month == other.month && self.day == other.day
            && self.hour == other.hour && self.minute == other.minute
            && self.shown_second() < other.shown_second()
    }

    /// `self` and `other` fall in the same whole second.
    pub open spec fn same_second(self, other: Self) -> bool {
        &&& self.year == other.year
        &&& self.month == other.month
        &&& self.day == other.day
        &&& self.hour == other.hour
        &&& self.minute == other.minute
        &&& self.shown_second() == other.shown_second()
    }
}

/// The year as chrono's `%Y` writes it: four digits for 0..=9999, otherwise a
/// sign followed by at least four digits.
pub open spec fn year_text(y: int) -> Seq<char> {
    if 0 <= y <= 9999 {
        fixed_digits(y as nat, 4)
    } else if y < 0 {
        seq!['-'] + year_magnitude((-y) as nat)
    } else {
        seq!['+'] + year_magnitude(y as nat)
    }
}

pub open spec fn year_magnitude(n: nat) -> Seq<char> {
    if n < 10000 {
        fixed_digits(n, 4)
    } else {
        decimal(n)
    }
}

/// `YYYY-MM-DD`
pub open spec fn date_text(t: UtcDateTime) -> Seq<char> {
    year_text(t.year as int) + seq!['-'] + fixed_digits(t.month as nat, 2) + seq!['-']
        + fixed_digits(t.day as nat, 2)
}

/// `HH:MM:SS`
pub open spec fn clock_text(t: UtcDateTime) -> Seq<char> {
    fixed_digits(t.hour as nat, 2) + seq![':'] + fixed_digits(t.minute as nat, 2) + seq![':']
        + fixed_digits(t.shown_second() as nat, 2)
}

/// The canonical published-at form `YYYY-MM-DDTHH:MM:SSZ`.
pub open spec fn utc_z_text(t: UtcDateTime) -> Seq<char> {
    date_text(t) + seq!['T'] + clock_text(t) + seq!['Z']
}

/// The SQLite form `YYYY-MM-DD HH:MM:SS`.
pub open spec fn sqlite_text(t: UtcDateTime) -> Seq<char> {
    date_text(t) + seq![' '] + clock_text(t)
}

/// The fraction chrono's RFC 3339 output uses (`SecondsFormat::AutoSi`):
/// none, or 3, 6 or 9 digits, the fewest that are exact.
pub open spec fn fraction_text(nanos: int) -> Seq<char> {
    if nanos == 0 {
        Seq::empty()
    } else if nanos % 1_000_000 == 0 {
        seq!['.'] + fixed_digits((nanos / 1_000_000) as nat, 3)
    } else if nanos % 1000 == 0 {
        seq!['.'] + fixed_digits((nanos / 1000) as nat, 6)
    } else {
        seq!['.'] + fixed_digits(nanos as nat, 9)
    }
}

/// RFC 3339 as `DateTime<Utc>::to_rfc3339` writes it.
pub open spec fn rfc3339_text(t: UtcDateTime) -> Seq<char> {
    date_text(t) + seq!['T'] + clock_text(t) + fraction_text(t.shown_nanosecond())
        + seq!['+', '0', '0', ':', '0', '0']
}

// ---------------------------------------------------------------------------
// chrono

/// What `chrono::DateTime::parse_from_rfc3339` yields for a text, as the UTC
/// date-time of the parsed instant, or `None` when it rejects the text.
pub uninterp spec fn rfc3339_instant(s: Seq<char>) -> Option<UtcDateTime>;

/// What `chrono::DateTime::parse_from_rfc2822` yields for a text, as the UTC
/// date-time of the parsed instant, or `None` when it rejects the text.
pub uninterp spec fn rfc2822_instant(s: Seq<char>) -> Option<UtcDateTime>;

pub open spec fn is_digit(c: char) -> bool {
    '0' <= c && c <= '9'
}

pub open spec fn digit_value(c: char) -> int {
    (c as u32) - 48
}

pub open spec fn two_digit_value(s: Seq<char>, i: int) -> int {
    10 * digit_value(s[i]) + digit_value(s[i + 1])
}

/// Whether `s` has the canonical shape `YYYY-MM-DDTHH:MM:SSZ` with in-range
/// fields (seconds up to 60, a leap second).
pub open spec fn is_canonical_text(s: Seq<char>) -> bool {
    &&& s.len() == 20
    &&& is_digit(s[0]) && is_digit(s[1]) && is_digit(s[2]) && is_digit(s[3])
    &&& s[4] == '-' && is_digit(s[5]) && is_digit(s[6]) && s[7] == '-'
    &&& is_digit(s[8]) && is_digit(s[9]) && s[10] == 'T'
    &&& is_digit(s[11]) && is_digit(s[12]) && s[13] == ':'
    &&& is_digit(s[14]) && is_digit(s[15]) && s[16] == ':'
    &&& is_digit(s[17]) && is_digit(s[18]) && s[19] == 'Z'
    &&& 1 <= two_digit_value(s, 5) <= 12
    &&& 1 <= two_digit_value(s, 8) <= days_in_month(canonical_year(s), two_digit_value(s, 5))
    &&& two_digit_value(s, 11) <= 23
    &&& two_digit_value(s, 14) <= 59
    &&& two_digit_value(s, 17) <= 60
}

pub open spec fn canonical_year(s: Seq<char>) -> int {
    1000 * digit_value(s[0]) + 100 * digit_value(s[1]) + 10 * digit_value(s[2]) + digit_value(s[3])
}

/// The date-time a canonical text names (a `:60` second is chrono's leap
/// second: second 59 plus one whole second of nanoseconds).
pub open spec fn canonical_fields(s: Seq<char>) -> UtcDateTime {
    let sec = two_digit_value(s, 17);
    UtcDateTime {
        year: canonical_year(s) as i32,
        month: two_digit_value(s, 5) as u8,
        day: two_digit_value(s, 8) as u8,
        hour: two_digit_value(s, 11) as u8,
        minute: two_digit_value(s, 14) as u8,
        second: if sec == 60 { 59 } else { sec as u8 },
        nanosecond: if sec == 60 { 1_000_000_000 } else { 0 },
    }
}

/// What chrono's RFC 3339 parser gives for a text: for a text already in the
/// canonical shape, the fields it spells; otherwise `rfc3339_instant`.
pub open spec fn rfc3339_reading(s: Seq<char>) -> Option<UtcDateTime> {
    if is_canonical_text(s) {
        Some(canonical_fields(s))
    } else {
        rfc3339_instant(s)
    }
}

/// Parses an RFC 3339 text with `chrono::DateTime::parse_from_rfc3339` and
/// gives the instant in UTC (`naive_utc`). Claimed of chrono: the result is a
/// valid date-time, and a text already in the canonical `…Z` shape parses to
/// the fields it spells (chrono reads the fixed 19-character prefix digit by
/// digit and `Z` as offset zero).
#[verifier::external_body]
pub fn rfc3339_utc(s: &str) -> (r: Option<UtcDateTime>)
    ensures
        r == rfc3339_reading(s@),
        !is_canonical_text(s@) ==> r == rfc3339_instant(s@),
        r matches Some(t) ==> t.is_valid(),
{
    match chrono::DateTime::parse_from_rfc3339(s) {
        Ok(dt) => {
            let u = dt.naive_utc();
            Some(UtcDateTime { year: u.year(), month: u.month() as u8, day: u.day() as u8,
                hour: u.hour() as u8, minute: u.minute() as u8, second: u.second() as u8,
                nanosecond: u.nanosecond() })
        },
        Err(_) => None,
    }
}

/// Parses an RFC 2822 text with `chrono::DateTime::parse_from_rfc2822` and
/// gives the instant in UTC (`naive_utc`). Claimed of chrono: the result is a
/// valid date-time. Which texts chrono accepts is left to the name
/// `rfc2822_instant`.
#[verifier::external_body]
pub fn rfc2822_utc(s: &str) -> (r: Option<UtcDateTime>)
    ensures
        r == rfc2822_instant(s@),
        r matches Some(t) ==> t.is_valid(),
{
    match chrono::DateTime::parse_from_rfc2822(s) {
        Ok(dt) => {
            let u = dt.naive_utc();
            Some(UtcDateTime { year: u.year(), month: u.month() as u8, day: u.day() as u8,
                hour: u.hour() as u8, minute: u.minute() as u8, second: u.second() as u8,
                nanosecond: u.nanosecond() })
        },
        Err(_) => None,
    }
}

/// Whether `minutes` makes a `chrono::TimeDelta` by `TimeDelta::try_minutes`:
/// the seconds it spans lie within `i64::MAX` milliseconds either way.
pub open spec fn minutes_in_delta_range(minutes: int) -> bool {
    let bound: int = 9_223_372_036_854_775;
    -bound <= minutes * 60 <= bound
}

/// Reads the clock (`chrono::Utc::now`) and adds `minutes` with
/// `checked_add_signed`. The reading depends on the clock, so only what holds
/// of every reading is stated: a valid date-time without a leap second; adding
/// zero minutes always succeeds; and an offset that `TimeDelta::try_minutes`
/// refuses (its seconds beyond `i64::MAX` milliseconds) gives `None`. When the
/// sum leaves chrono's range of dates the result is `None` too (which readings
/// that happens for is not stated).
#[verifier::external_body]
pub fn clock_plus_minutes(minutes: i64) -> (r: Option<UtcDateTime>)
    ensures
        r matches Some(t) ==> t.is_valid() && t.nanosecond < 1_000_000_000,
        minutes == 0 ==> r is Some,
        !minutes_in_delta_range(minutes as int) ==> r is None,
{
    let dt = chrono::Utc::now().checked_add_signed(chrono::TimeDelta::try_minutes(minutes)?)?;
    let u = dt.naive_utc();
    Some(UtcDateTime { year: u.year(), month: u.month() as u8, day: u.day() as u8,
        hour: u.hour() as u8, minute: u.minute() as u8, second: u.second() as u8,
        nanosecond: u.nanosecond() })
}


// ---------------------------------------------------------------------------
// rendering

/// Appends `n` in decimal without leading zeros.
pub fn push_decimal(s: &mut String, n: u64)
    ensures
        final(s)@ == old(s)@ + decimal(n as nat),
    decreases n,
{
    if n >= 10 {
        push_decimal(s, n / 10);
    }
    push_char(s, crate::digits::digit_of(n % 10));
}

/// Appends the year as `%Y` writes it.
pub fn push_year(s: &mut String, y: i32)
    ensures
        final(s)@ == old(s)@ + year_text(y as int),
{
    if 0 <= y && y <= 9999 {
        crate::digits::push_fixed_digits(s, y as u64, 4);
    } else {
        let ghost before = s@;
        let magnitude: u64 = if y < 0 {
            push_char(s, '-');
            (-(y as i64)) as u64
        } else {
            push_char(s, '+');
            y as u64
        };
        let ghost signed = s@;
        if magnitude < 10000 {
            crate::digits::push_fixed_digits(s, magnitude, 4);
        } else {
            push_decimal(s, magnitude);
        }
        assert(s@ == before + year_text(y as int));
    }
}

fn push_date(s: &mut String, t: &UtcDateTime)
    requires
        t.is_valid(),
    ensures
        final(s)@ == old(s)@ + date_text(*t),
{
    let ghost start = s@;
    push_year(s, t.year);
    push_char(s, '-');
    crate::digits::push_fixed_digits(s, t.month as u64, 2);
    push_char(s, '-');
    crate::digits::push_fixed_digits(s, t.day as u64, 2);
    assert(s@ == start + date_text(*t));
}

fn push_clock(s: &mut String, t: &UtcDateTime)
    requires
        t.is_valid(),
    ensures
        final(s)@ == old(s)@ + clock_text(*t),
{
    let ghost start = s@;
    crate::digits::push_fixed_digits(s, t.hour as u64, 2);
    push_char(s, ':');
    crate::digits::push_fixed_digits(s, t.minute as u64, 2);
    push_char(s, ':');
    let sec: u64 = if t.nanosecond >= 1_000_000_000 { t.second as u64 + 1 } else { t.second as u64 };
    crate::digits::push_fixed_digits(s, sec, 2);
    assert(s@ == start + clock_text(*t));
}

/// The canonical published-at text of a UTC date-time (chrono's
/// `format("%Y-%m-%dT%H:%M:%SZ")`).
pub fn to_utc_z(t: &UtcDateTime) -> (r: String)
    requires
        t.is_valid(),
    ensures
        r@ == utc_z_text(*t),
{
    let mut s = String::new();
    push_date(&mut s, t);
    push_char(&mut s, 'T');
    push_clock(&mut s, t);
    push_char(&mut s, 'Z');
    assert(s@ == utc_z_text(*t));
    s
}

/// The SQLite text of a UTC date-time (`format("%Y-%m-%d %H:%M:%S")`).
pub fn sqlite_timestamp(t: &UtcDateTime) -> (r: String)
    requires
        t.is_valid(),
    ensures
        r@ == sqlite_text(*t),
{
    let mut s = String::new();
    push_date(&mut s, t);
    push_char(&mut s, ' ');
    push_clock(&mut s, t);
    assert(s@ == sqlite_text(*t));
    s
}

/// The RFC 3339 text of a UTC date-time as `to_rfc3339` writes it.
pub fn rfc3339_timestamp(t: &UtcDateTime) -> (r: String)
    requires
        t.is_valid(),
    ensures
        r@ == rfc3339_text(*t),
{
    let mut s = String::new();
    push_date(&mut s, t);
    push_char(&mut s, 'T');
    push_clock(&mut s, t);
    let ghost mid = s@;
    let nanos: u64 = if t.nanosecond >= 1_000_000_000 {
        (t.nanosecond - 1_000_000_000) as u64
    } else {
        t.nanosecond as u64
    };
    if nanos == 0 {
    } else if nanos % 1_000_000 == 0 {
        push_char(&mut s, '.');
        crate::digits::push_fixed_digits(&mut s, nanos / 1_000_000, 3);
    } else if nanos % 1000 == 0 {
        push_char(&mut s, '.');
        crate::digits::push_fixed_digits(&mut s, nanos / 1000, 6);
    } else {
        push_char(&mut s, '.');
        crate::digits::push_fixed_digits(&mut s, nanos, 9);
    }
    assert(s@ == mid + fraction_text(t.shown_nanosecond()));
    push_char(&mut s, '+');
    push_char(&mut s, '0');
    push_char(&mut s, '0');
    push_char(&mut s, ':');
    push_char(&mut s, '0');
    push_char(&mut s, '0');
    assert(s@ == rfc3339_text(*t));
    s
}

/// The current time as RFC 3339 (`Utc::now().to_rfc3339()`).
pub fn current_timestamp() -> (r: String)
    ensures
        exists|t: UtcDateTime| #[trigger] t.is_valid() && r@ == rfc3339_text(t),
{
    let now = clock_plus_minutes(0).unwrap();
    rfc3339_timestamp(&now)
}

/// SQLite-flavoured UTC timestamp `YYYY-MM-DD HH:MM:SS`, lexicographically
/// comparable with `datetime('now')` as used across the D1 queries.
pub fn sqlite_now() -> (r: String)
    ensures
        exists|t: UtcDateTime| #[trigger] t.is_valid() && r@ == sqlite_text(t),
{
    let now = clock_plus_minutes(0).unwrap();
    sqlite_timestamp(&now)
}

/// `sqlite_now()` plus `minutes` (used for `next_fetch_at` / backoff), or
/// `None` when the offset or that time is outside what chrono represents.
/// With no offset it always succeeds.
pub fn sqlite_now_plus_minutes(minutes: i64) -> (r: Option<String>)
    ensures
        r matches Some(s) ==> exists|t: UtcDateTime| #[trigger] t.is_valid() && s@ == sqlite_text(t),
        minutes == 0 ==> r is Some,
        !minutes_in_delta_range(minutes as int) ==> r is None,
{
    match clock_plus_minutes(minutes) {
        Some(t) => Some(sqlite_timestamp(&t)),
        None => None,
    }
}


// ---------------------------------------------------------------------------
// published_at normalisation

/// An optional owned text, by its characters.
pub open spec fn opt_text(o: Option<String>) -> Option<Seq<char>> {
    match o {
        Some(s) => Some(s@),
        None => None,
    }
}

/// ASCII upper-casing of one character (`to_ascii_uppercase`).
pub open spec fn ascii_upper(c: char) -> char {
    if 'a' <= c && c <= 'z' {
        ((c as u32) - 32) as char
    } else {
        c
    }
}

pub fn ascii_upper_char(c: char) -> (r: char)
    ensures
        r == ascii_upper(c),
{
    if 'a' <= c && c <= 'z' {
        let u = (c as u32) - 32;
        assert(u < 0xD800);
        u as u8 as char
    } else {
        c
    }
}

/// `t` ends with `zone`, compared after ASCII upper-casing `t`.
pub open spec fn has_zone_suffix(t: Seq<char>, zone: Seq<char>) -> bool {
    &&& t.len() >= zone.len()
    &&& forall|i: int| 0 <= i < zone.len() ==> ascii_upper(#[trigger] t[t.len() - zone.len() + i]) == zone[i]
}

pub open spec fn zone_gmt() -> Seq<char> {
    seq!['G', 'M', 'T']
}

pub open spec fn zone_ut() -> Seq<char> {
    seq!['U', 'T']
}

pub open spec fn zone_utc() -> Seq<char> {
    seq!['U', 'T', 'C']
}

pub open spec fn numeric_utc() -> Seq<char> {
    seq!['+', '0', '0', '0', '0']
}

/// The RFC 2822 candidate: a trailing textual zone `GMT`, `UT` or `UTC`
/// (any case, checked in that order) replaced by `+0000`.
pub open spec fn zone_rewritten(t: Seq<char>) -> Seq<char> {
    if has_zone_suffix(t, zone_gmt()) {
        t.take(t.len() - 3) + numeric_utc()
    } else if has_zone_suffix(t, zone_ut()) {
        t.take(t.len() - 2) + numeric_utc()
    } else if has_zone_suffix(t, zone_utc()) {
        t.take(t.len() - 3) + numeric_utc()
    } else {
        t
    }
}

/// The instant a feed's published timestamp names: the trimmed text read as
/// RFC 3339, else (after the zone rewrite) as RFC 2822; `None` when blank or
/// unparseable.
pub open spec fn published_instant(raw: Seq<char>) -> Option<UtcDateTime> {
    let t = trim(raw);
    if t.len() == 0 {
        None
    } else {
        match rfc3339_reading(t) {
            Some(u) => Some(u),
            None => rfc2822_instant(zone_rewritten(t)),
        }
    }
}

/// The canonical form of a feed's published timestamp: its instant rendered
/// as `YYYY-MM-DDTHH:MM:SSZ`; `None` when blank or unparseable.
pub open spec fn published_at_canonical(raw: Seq<char>) -> Option<Seq<char>> {
    match published_instant(raw) {
        Some(u) => Some(utc_z_text(u)),
        None => None,
    }
}

fn has_zone_suffix_exec(t: &Vec<char>, zone: &Vec<char>) -> (r: bool)
    ensures
        r == has_zone_suffix(t@, zone@),
{
    if t.len() < zone.len() {
        return false;
    }
    let off = t.len() - zone.len();
    let mut i: usize = 0;
    while i < zone.len()
        invariant
            off + zone.len() == t.len(),
            i <= zone.len(),
            forall|k: int| 0 <= k < i ==> ascii_upper(#[trigger] t@[t@.len() - zone@.len() + k]) == zone@[k],
        decreases zone.len() - i,
    {
        if ascii_upper_char(t[off + i]) != zone[i] {
            assert(ascii_upper(t@[t@.len() - zone@.len() + i]) != zone@[i as int]);
            return false;
        }
        i += 1;
    }
    true
}

fn with_numeric_utc(t: &Vec<char>, keep: usize) -> (r: String)
    requires
        keep <= t.len(),
    ensures
        r@ == t@.take(keep as int) + numeric_utc(),
{
    let mut s = crate::text::string_from(t, 0, keep);
    push_char(&mut s, '+');
    push_char(&mut s, '0');
    push_char(&mut s, '0');
    push_char(&mut s, '0');
    push_char(&mut s, '0');
    assert(s@ == t@.take(keep as int) + numeric_utc());
    s
}

fn zone_rewrite(t: &Vec<char>) -> (r: String)
    ensures
        r@ == zone_rewritten(t@),
{
    if has_zone_suffix_exec(t, &vec!['G', 'M', 'T']) {
        with_numeric_utc(t, t.len() - 3)
    } else if has_zone_suffix_exec(t, &vec!['U', 'T']) {
        with_numeric_utc(t, t.len() - 2)
    } else if has_zone_suffix_exec(t, &vec!['U', 'T', 'C']) {
        with_numeric_utc(t, t.len() - 3)
    } else {
        crate::text::string_from(t, 0, t.len())
    }
}

/// Normalize an RSS/Atom published timestamp to the canonical, chronologically
/// sortable UTC form `YYYY-MM-DDTHH:MM:SSZ`.
///
/// Accepts RFC 3339 / Atom dates and RFC 1123 / RFC 2822 RSS `pubDate`s (a
/// trailing `GMT`, `UT` or `UTC`, in any case, is read as `+0000`). Returns
/// `None` when the text is blank or unparseable: the caller keeps the original
/// value.
pub fn normalize_published_at(raw: &str) -> (r: Option<String>)
    ensures
        opt_text(r) == published_at_canonical(raw@),
        r is Some ==> (published_instant(raw@) matches Some(t) && t.is_valid()),
        r matches Some(s) ==> exists|t: UtcDateTime| #[trigger] t.is_valid() && s@ == utc_z_text(t),
{
    let v = crate::text::chars_of(raw);
    let (a, b) = crate::text::trim_bounds(&v);
    if a == b {
        return None;
    }
    let t = crate::text::string_from(&v, a, b);
    let tv = crate::text::chars_of(t.as_str());
    if let Some(u) = rfc3339_utc(t.as_str()) {
        return Some(to_utc_z(&u));
    }
    let candidate = zone_rewrite(&tv);
    if let Some(u) = rfc2822_utc(candidate.as_str()) {
        return Some(to_utc_z(&u));
    }
    None
}


// ---------------------------------------------------------------------------
// laws of the canonical form

proof fn lemma_block(xa: Seq<char>, ra: Seq<char>, xb: Seq<char>, rb: Seq<char>)
    requires
        xa.len() == xb.len(),
    ensures
        text_lt(xa + ra, xb + rb) <==> (text_lt(xa, xb) || (xa == xb && text_lt(ra, rb))),
        (xa + ra == xb + rb) <==> (xa == xb && ra == rb),
{
    crate::digits::lemma_text_lt_concat(xa, ra, xb, rb);
    if xa + ra == xb + rb {
        assert(xa == (xa + ra).subrange(0, xa.len() as int));
        assert(xb == (xb + rb).subrange(0, xb.len() as int));
        assert(ra == (xa + ra).subrange(xa.len() as int, (xa + ra).len() as int));
        assert(rb == (xb + rb).subrange(xb.len() as int, (xb + rb).len() as int));
    }
}

pub(crate) proof fn lemma_sep(c: char, ra: Seq<char>, rb: Seq<char>)
    ensures
        text_lt(seq![c] + ra, seq![c] + rb) <==> text_lt(ra, rb),
        (seq![c] + ra == seq![c] + rb) <==> ra == rb,
{
    lemma_block(seq![c], ra, seq![c], rb);
    crate::digits::lemma_text_lt_irreflexive(seq![c]);
}

pub(crate) proof fn lemma_pow10_small()
    ensures
        crate::digits::pow10(2) == 100,
        crate::digits::pow10(4) == 10000,
{
    assert(crate::digits::pow10(0) == 1);
    assert(crate::digits::pow10(1) == 10);
    assert(crate::digits::pow10(2) == 100);
    assert(crate::digits::pow10(3) == 1000);
    assert(crate::digits::pow10(4) == 10000);
}

pub(crate) proof fn lemma_field(x: nat, y: nat, w: nat, ra: Seq<char>, rb: Seq<char>)
    requires
        x < crate::digits::pow10(w),
        y < crate::digits::pow10(w),
    ensures
        text_lt(fixed_digits(x, w) + ra, fixed_digits(y, w) + rb) <==> (x < y || (x == y && text_lt(ra, rb))),
        (fixed_digits(x, w) + ra == fixed_digits(y, w) + rb) <==> (x == y && ra == rb),
{
    crate::digits::lemma_fixed_digits_len(x, w);
    crate::digits::lemma_fixed_digits_len(y, w);
    crate::digits::lemma_fixed_digits_order(x, y, w);
    lemma_block(fixed_digits(x, w), ra, fixed_digits(y, w), rb);
}

/// The canonical text, written right-nested block by block.
spec fn nested_text(t: UtcDateTime) -> Seq<char> {
    fixed_digits(t.year as nat, 4) + (seq!['-'] + (fixed_digits(t.month as nat, 2) + (seq!['-']
        + (fixed_digits(t.day as nat, 2) + (seq!['T'] + (fixed_digits(t.hour as nat, 2) + (seq![':']
        + (fixed_digits(t.minute as nat, 2) + (seq![':'] + (fixed_digits(t.shown_second() as nat, 2)
        + seq!['Z']))))))))))
}

/// For valid date-times in the years 0..=9999 the canonical texts compare as
/// text exactly as the instants compare in time (to the whole second), and two
/// texts are equal exactly when the instants fall in the same second: sorting
/// `published_at` as text sorts it by time.
pub proof fn canonical_text_orders_like_time(a: UtcDateTime, b: UtcDateTime)
    requires
        a.is_valid(),
        b.is_valid(),
        0 <= a.year <= 9999,
        0 <= b.year <= 9999,
    ensures
        text_lt(utc_z_text(a), utc_z_text(b)) <==> a.earlier_second(b),
        utc_z_text(a) == utc_z_text(b) <==> a.same_second(b),
        utc_z_text(a).len() == 20,
{
    lemma_pow10_small();
    assert(utc_z_text(a) =~= nested_text(a));
    assert(utc_z_text(b) =~= nested_text(b));
    let za = seq!['Z'];
    let sa = fixed_digits(a.shown_second() as nat, 2) + za;
    let sb = fixed_digits(b.shown_second() as nat, 2) + za;
    lemma_field(a.shown_second() as nat, b.shown_second() as nat, 2, za, za);
    crate::digits::lemma_text_lt_irreflexive(za);
    let ca = seq![':'] + sa;
    let cb = seq![':'] + sb;
    lemma_sep(':', sa, sb);
    let ma = fixed_digits(a.minute as nat, 2) + ca;
    let mb = fixed_digits(b.minute as nat, 2) + cb;
    lemma_field(a.minute as nat, b.minute as nat, 2, ca, cb);
    let c2a = seq![':'] + ma;
    let c2b = seq![':'] + mb;
    lemma_sep(':', ma, mb);
    let ha = fixed_digits(a.hour as nat, 2) + c2a;
    let hb = fixed_digits(b.hour as nat, 2) + c2b;
    lemma_field(a.hour as nat, b.hour as nat, 2, c2a, c2b);
    let ta = seq!['T'] + ha;
    let tb = seq!['T'] + hb;
    lemma_sep('T', ha, hb);
    let da = fixed_digits(a.day as nat, 2) + ta;
    let db = fixed_digits(b.day as nat, 2) + tb;
    lemma_field(a.day as nat, b.day as nat, 2, ta, tb);
    let d2a = seq!['-'] + da;
    let d2b = seq!['-'] + db;
    lemma_sep('-', da, db);
    let moa = fixed_digits(a.month as nat, 2) + d2a;
    let mob = fixed_digits(b.month as nat, 2) + d2b;
    lemma_field(a.month as nat, b.month as nat, 2, d2a, d2b);
    let m2a = seq!['-'] + moa;
    let m2b = seq!['-'] + mob;
    lemma_sep('-', moa, mob);
    lemma_field(a.year as nat, b.year as nat, 4, m2a, m2b);
    crate::digits::lemma_fixed_digits_len(a.year as nat, 4);
    crate::digits::lemma_fixed_digits_len(a.month as nat, 2);
    crate::digits::lemma_fixed_digits_len(a.day as nat, 2);
    crate::digits::lemma_fixed_digits_len(a.hour as nat, 2);
    crate::digits::lemma_fixed_digits_len(a.minute as nat, 2);
    crate::digits::lemma_fixed_digits_len(a.shown_second() as nat, 2);
}


proof fn lemma_digit(d: int)
    requires
        0 <= d < 10,
    ensures
        is_digit(crate::digits::digit_char(d)),
        digit_value(crate::digits::digit_char(d)) == d,
        !crate::text::is_space(crate::digits::digit_char(d)),
{
}

proof fn lemma_two_digits(n: nat)
    requires
        n < 100,
    ensures
        fixed_digits(n, 2) == seq![crate::digits::digit_char((n / 10) as int), crate::digits::digit_char((n % 10) as int)],
        0 <= n / 10 < 10,
        10 * (n / 10) + n % 10 == n,
{
    assert(n / 10 < 10 && (n / 10) / 10 == 0 && (n / 10) % 10 == n / 10);
    assert(fixed_digits((n / 10) / 10, 0) == Seq::<char>::empty());
    assert(fixed_digits(n / 10, 1) == fixed_digits((n / 10) / 10, 0).push(crate::digits::digit_char(((n / 10) % 10) as int)));
    assert(fixed_digits(n, 2) == fixed_digits(n / 10, 1).push(crate::digits::digit_char((n % 10) as int)));
    assert(fixed_digits(n, 2) =~= seq![crate::digits::digit_char((n / 10) as int), crate::digits::digit_char((n % 10) as int)]);
}

proof fn lemma_four_digits(n: nat)
    requires
        n < 10000,
    ensures
        fixed_digits(n, 4) == seq![
            crate::digits::digit_char((n / 1000) as int),
            crate::digits::digit_char(((n / 100) % 10) as int),
            crate::digits::digit_char(((n / 10) % 10) as int),
            crate::digits::digit_char((n % 10) as int),
        ],
        0 <= n / 1000 < 10,
        1000 * (n / 1000) + 100 * ((n / 100) % 10) + 10 * ((n / 10) % 10) + n % 10 == n,
{
    let q1 = n / 10;
    let q2 = q1 / 10;
    let q3 = q2 / 10;
    assert(q2 == n / 100 && q3 == n / 1000 && q3 < 10 && q3 / 10 == 0 && q3 % 10 == q3) by (nonlinear_arith)
        requires
            q1 == n / 10,
            q2 == q1 / 10,
            q3 == q2 / 10,
            n < 10000,
    ;
    assert(1000 * (n / 1000) + 100 * ((n / 100) % 10) + 10 * ((n / 10) % 10) + n % 10 == n) by (nonlinear_arith)
        requires
            n < 10000,
    ;
    assert(fixed_digits(q3 / 10, 0) == Seq::<char>::empty());
    assert(fixed_digits(q3, 1) == fixed_digits(q3 / 10, 0).push(crate::digits::digit_char((q3 % 10) as int)));
    assert(fixed_digits(q2, 2) == fixed_digits(q3, 1).push(crate::digits::digit_char((q2 % 10) as int)));
    assert(fixed_digits(q1, 3) == fixed_digits(q2, 2).push(crate::digits::digit_char((q1 % 10) as int)));
    assert(fixed_digits(n, 4) == fixed_digits(q1, 3).push(crate::digits::digit_char((n % 10) as int)));
    assert(fixed_digits(n, 4) =~= seq![
        crate::digits::digit_char((n / 1000) as int),
        crate::digits::digit_char(((n / 100) % 10) as int),
        crate::digits::digit_char(((n / 10) % 10) as int),
        crate::digits::digit_char((n % 10) as int),
    ]);
}

/// A canonical text is its own normal form: for every valid date-time in the
/// years 0..=9999, normalising its canonical text gives that text back
/// (normalisation is idempotent on everything it writes in that range).
pub proof fn canonical_text_is_fixed_point(t: UtcDateTime)
    requires
        t.is_valid(),
        0 <= t.year <= 9999,
    ensures
        is_canonical_text(utc_z_text(t)),
        published_at_canonical(utc_z_text(t)) == Some(utc_z_text(t)),
{
    let c = utc_z_text(t);
    let y = t.year as nat;
    let sec = t.shown_second() as nat;
    lemma_four_digits(y);
    lemma_two_digits(t.month as nat);
    lemma_two_digits(t.day as nat);
    lemma_two_digits(t.hour as nat);
    lemma_two_digits(t.minute as nat);
    lemma_two_digits(sec);
    lemma_digit((y / 1000) as int);
    lemma_digit(((y / 100) % 10) as int);
    lemma_digit(((y / 10) % 10) as int);
    lemma_digit((y % 10) as int);
    lemma_digit((t.month / 10) as int);
    lemma_digit((t.month % 10) as int);
    lemma_digit((t.day / 10) as int);
    lemma_digit((t.day % 10) as int);
    lemma_digit((t.hour / 10) as int);
    lemma_digit((t.hour % 10) as int);
    lemma_digit((t.minute / 10) as int);
    lemma_digit((t.minute % 10) as int);
    lemma_digit((sec / 10) as int);
    lemma_digit((sec % 10) as int);
    assert(c =~= seq![
        crate::digits::digit_char((y / 1000) as int),
        crate::digits::digit_char(((y / 100) % 10) as int),
        crate::digits::digit_char(((y / 10) % 10) as int),
        crate::digits::digit_char((y % 10) as int),
        '-',
        crate::digits::digit_char((t.month / 10) as int),
        crate::digits::digit_char((t.month % 10) as int),
        '-',
        crate::digits::digit_char((t.day / 10) as int),
        crate::digits::digit_char((t.day % 10) as int),
        'T',
        crate::digits::digit_char((t.hour / 10) as int),
        crate::digits::digit_char((t.hour % 10) as int),
        ':',
        crate::digits::digit_char((t.minute / 10) as int),
        crate::digits::digit_char((t.minute % 10) as int),
        ':',
        crate::digits::digit_char((sec / 10) as int),
        crate::digits::digit_char((sec % 10) as int),
        'Z',
    ]);
    assert(canonical_year(c) == t.year);
    assert(two_digit_value(c, 5) == t.month);
    assert(two_digit_value(c, 8) == t.day);
    assert(two_digit_value(c, 11) == t.hour);
    assert(two_digit_value(c, 14) == t.minute);
    assert(two_digit_value(c, 17) == sec);
    assert(is_canonical_text(c));
    let u = canonical_fields(c);
    assert(u.shown_second() == sec);
    assert(utc_z_text(u) =~= c);
    assert(!crate::text::is_space(c[0]));
    assert(!crate::text::is_space(c.last()));
    assert(crate::text::trim_start(c) == c);
    assert(crate::text::trim_end(c) == c);
}

/// What normalisation writes is canonical and stable: when a published
/// timestamp names a valid instant in the years 0..=9999, its normal form is
/// that instant's `YYYY-MM-DDTHH:MM:SSZ` text (20 characters: digits with
/// `-`, `T`, `:` and `Z` in their places), and normalising that text again
/// gives it back unchanged.
pub proof fn normalized_published_at_is_canonical_and_idempotent(raw: Seq<char>, t: UtcDateTime)
    requires
        published_instant(raw) == Some(t),
        t.is_valid(),
        0 <= t.year <= 9999,
    ensures
        published_at_canonical(raw) == Some(utc_z_text(t)),
        is_canonical_text(utc_z_text(t)),
        published_at_canonical(utc_z_text(t)) == Some(utc_z_text(t)),
{
    canonical_text_is_fixed_point(t);
}


/// Only a trailing `GMT`, `UT` or `UTC` (in any case) is rewritten: a text
/// ending in none of them is handed to the RFC 2822 reader as it is, so a
/// named zone such as `EDT` keeps the offset the reader gives it; and the
/// instant of such a published timestamp is read from its trimmed text
/// itself.
pub proof fn only_utc_zone_names_are_rewritten(raw: Seq<char>)
    ensures
        ({
            let t = trim(raw);
            (!has_zone_suffix(t, zone_gmt()) && !has_zone_suffix(t, zone_ut()) && !has_zone_suffix(t, zone_utc()))
                ==> zone_rewritten(t) == t
                    && (t.len() > 0 ==> published_instant(raw) == match rfc3339_reading(t) {
                        Some(u) => Some(u),
                        None => rfc2822_instant(t),
                    })
        }),
{
}

}
