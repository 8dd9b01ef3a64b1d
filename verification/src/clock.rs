//! Points in time, their RFC 3339 text, and the last-run record that the
//! scheduler writes and the watchdog reads.
//!
//! An [`Instant`] is a Unix timestamp: whole seconds since 1970-01-01 UTC and
//! the nanoseconds past that second. Reading and writing RFC 3339 text is
//! chrono's work.

use vstd::prelude::*;

verus! {

/// Nanoseconds in a second.
pub const NANOS_PER_SEC: u32 = 1_000_000_000;

/// The first second of year 0000, as a Unix timestamp.
pub const FIRST_FOUR_DIGIT_YEAR_SEC: i64 = -62167219200;

/// The last second of year 9999, as a Unix timestamp.
pub const LAST_FOUR_DIGIT_YEAR_SEC: i64 = 253402300799;

/// Seconds in the scheduler's check interval (12 hours).
pub const CHECK_INTERVAL_SECS: i64 = 43200;

/// A point in time: seconds since the Unix epoch and nanoseconds past them.
#[derive(Debug, Clone, Copy, PartialEq, Eq, Structural)]
pub struct Instant {
    pub secs: i64,
    pub nanos: u32,
}

/// An instant that is not inside a leap second.
pub open spec fn is_plain(i: Instant) -> bool {
    i.nanos < NANOS_PER_SEC
}

/// An instant in a year of four digits (0000 to 9999), not inside a leap second:
/// the instants whose RFC 3339 text chrono writes and reads back.
pub open spec fn is_writable(i: Instant) -> bool {
    &&& is_plain(i)
    &&& FIRST_FOUR_DIGIT_YEAR_SEC <= i.secs <= LAST_FOUR_DIGIT_YEAR_SEC
}

/// The instant chrono's `DateTime::parse_from_rfc3339` reads from a text, as
/// (Unix seconds, nanoseconds), or `None` when it rejects the text.
pub uninterp spec fn rfc3339_instant(text: Seq<char>) -> Option<(int, int)>;

/// The text chrono's `DateTime<Utc>::to_rfc3339` writes for an instant.
pub uninterp spec fn rfc3339_text(secs: int, nanos: int) -> Seq<char>;

pub open spec fn is_ascii_digit(c: char) -> bool {
    '0' <= c && c <= '9'
}

/// chrono's `DateTime::parse_from_rfc3339`, taken as a Unix timestamp
/// (`timestamp`, `timestamp_subsec_nanos`). Claims: the instant named by
/// `rfc3339_instant`, and `None` exactly when that is `None`.
#[verifier::external_body]
fn chrono_parse_rfc3339(text: &str) -> (r: Option<Instant>)
    ensures
        match r {
            Some(i) => rfc3339_instant(text@) == Some((i.secs as int, i.nanos as int)),
            None => rfc3339_instant(text@) is None,
        },
{
    match chrono::DateTime::parse_from_rfc3339(text) {
        Ok(dt) => Some(Instant { secs: dt.timestamp(), nanos: dt.timestamp_subsec_nanos() }),
        Err(_) => None,
    }
}

/// chrono's `DateTime<Utc>::to_rfc3339` of `DateTime::from_timestamp(secs, nanos)`.
/// Claims: the text named by `rfc3339_text`; for a four-digit year it is
/// `YYYY-MM-DDTHH:MM:SS[.fraction]+00:00`, so it starts and ends with a digit,
/// and `parse_from_rfc3339` reads the same instant back from it.
#[verifier::external_body]
fn chrono_rfc3339_text(i: Instant) -> (r: String)
    requires
        is_writable(i),
    ensures
        r@ == rfc3339_text(i.secs as int, i.nanos as int),
        r@.len() > 0,
        is_ascii_digit(r@[0]),
        is_ascii_digit(r@.last()),
        rfc3339_instant(r@) == Some((i.secs as int, i.nanos as int)),
{
    match chrono::DateTime::from_timestamp(i.secs, i.nanos) {
        Some(dt) => dt.to_rfc3339(),
        None => String::new(),
    }
}

/// Unicode `White_Space`, the characters `str::trim` removes.
pub open spec fn is_unicode_whitespace(c: char) -> bool {
    let u = c as u32;
    ||| 0x09 <= u <= 0x0d
    ||| u == 0x20
    ||| u == 0x85
    ||| u == 0xa0
    ||| u == 0x1680
    ||| 0x2000 <= u <= 0x200a
    ||| u == 0x2028
    ||| u == 0x2029
    ||| u == 0x202f
    ||| u == 0x205f
    ||| u == 0x3000
}

pub open spec fn trim_start_text(s: Seq<char>) -> Seq<char>
    decreases s.len(),
{
    if s.len() > 0 && is_unicode_whitespace(s[0]) {
        trim_start_text(s.drop_first())
    } else {
        s
    }
}

pub open spec fn trim_end_text(s: Seq<char>) -> Seq<char>
    decreases s.len(),
{
    if s.len() > 0 && is_unicode_whitespace(s.last()) {
        trim_end_text(s.drop_last())
    } else {
        s
    }
}

/// A text without its leading and trailing whitespace.
pub open spec fn trimmed_text(s: Seq<char>) -> Seq<char> {
    trim_end_text(trim_start_text(s))
}

/// std's `str::trim`. Claims: the text without its leading and trailing
/// Unicode `White_Space` characters, as std documents it.
#[verifier::external_body]
fn std_trim(s: &str) -> (r: &str)
    ensures
        r@ == trimmed_text(s@),
{
    s.trim()
}

/// The instant a last-run record holds: the RFC 3339 text, trimmed.
pub open spec fn last_run_of(content: Seq<char>) -> Option<(int, int)> {
    rfc3339_instant(trimmed_text(content))
}

/// Reads the last-run record: its trimmed text as RFC 3339, or `None` when it
/// is not a valid timestamp.
pub fn parse_last_run(content: &str) -> (r: Option<Instant>)
    ensures
        match r {
            Some(i) => last_run_of(content@) == Some((i.secs as int, i.nanos as int)),
            None => last_run_of(content@) is None,
        },
{
    chrono_parse_rfc3339(std_trim(content))
}

/// Reads an RFC 3339 timestamp exactly as given.
pub fn parse_timestamp(text: &str) -> (r: Option<Instant>)
    ensures
        match r {
            Some(i) => rfc3339_instant(text@) == Some((i.secs as int, i.nanos as int)),
            None => rfc3339_instant(text@) is None,
        },
{
    chrono_parse_rfc3339(text)
}

/// The RFC 3339 text of an instant (`2026-03-13T12:00:00+00:00`).
pub fn timestamp_text(i: Instant) -> (r: String)
    requires
        is_writable(i),
    ensures
        r@ == rfc3339_text(i.secs as int, i.nanos as int),
        rfc3339_instant(r@) == Some((i.secs as int, i.nanos as int)),
{
    chrono_rfc3339_text(i)
}

/// A text that begins and ends with a digit has nothing to trim.
proof fn lemma_trim_keeps_digit_ends(s: Seq<char>)
    requires
        s.len() > 0,
        is_ascii_digit(s[0]),
        is_ascii_digit(s.last()),
    ensures
        trimmed_text(s) == s,
{
}

/// The last-run record for a run at `now`. Record law: reading the record
/// back gives `now` again.
pub fn last_run_record(now: Instant) -> (r: String)
    requires
        is_writable(now),
    ensures
        r@ == rfc3339_text(now.secs as int, now.nanos as int),
        last_run_of(r@) == Some((now.secs as int, now.nanos as int)),
{
    let r = chrono_rfc3339_text(now);
    proof {
        lemma_trim_keeps_digit_ends(r@);
    }
    r
}

/// The instant as nanoseconds since the epoch.
pub open spec fn total_nanos(i: Instant) -> int {
    i.secs * NANOS_PER_SEC + i.nanos
}

/// Integer division rounding toward zero, as Rust's `/` on integers.
pub open spec fn div_toward_zero(a: int, b: int) -> int {
    if a >= 0 {
        a / b
    } else {
        -((-a) / b)
    }
}

/// Whole seconds from `earlier` to `later`, rounded toward zero, as chrono's
/// `(later - earlier).num_seconds()`.
pub open spec fn whole_seconds_between(later: Instant, earlier: Instant) -> int {
    div_toward_zero(total_nanos(later) - total_nanos(earlier), NANOS_PER_SEC as int)
}

/// Whole minutes from `earlier` to `later`, as chrono's `num_minutes`.
pub open spec fn whole_minutes_between(later: Instant, earlier: Instant) -> int {
    div_toward_zero(whole_seconds_between(later, earlier), 60)
}

/// Whole hours from `earlier` to `later`, as chrono's `num_hours`.
pub open spec fn whole_hours_between(later: Instant, earlier: Instant) -> int {
    div_toward_zero(whole_seconds_between(later, earlier), 3600)
}

/// Rounding twice toward zero, first to seconds and then to `unit` seconds,
/// is rounding once to `unit` seconds.
proof fn lemma_round_twice(d: int, unit: int)
    requires
        d >= 0,
        unit > 0,
    ensures
        NANOS_PER_SEC * unit * ((d / NANOS_PER_SEC as int) / unit) <= d,
        d < NANOS_PER_SEC * unit * ((d / NANOS_PER_SEC as int) / unit + 1),
{
    let s = d / NANOS_PER_SEC as int;
    let m = s / unit;
    assert(NANOS_PER_SEC * s <= d < NANOS_PER_SEC * (s + 1)) by (nonlinear_arith)
        requires
            s == d / 1_000_000_000,
            d >= 0,
    ;
    assert(unit * m <= s < unit * (m + 1)) by (nonlinear_arith)
        requires
            m == s / unit,
            s >= 0,
            unit > 0,
    ;
    assert(NANOS_PER_SEC * unit * m <= d) by (nonlinear_arith)
        requires
            unit * m <= s,
            NANOS_PER_SEC * s <= d,
    ;
    assert(d < NANOS_PER_SEC * unit * (m + 1)) by (nonlinear_arith)
        requires
            s < unit * (m + 1),
            d < NANOS_PER_SEC * (s + 1),
            s + 1 <= unit * (m + 1),
    ;
}

/// Elapsed-time law: the whole minutes (hours) from `earlier` to `later` are
/// the elapsed time in minutes (hours) with the fraction dropped, rounding
/// toward zero; and measuring the other way round gives the negated count.
pub proof fn law_whole_units_between(later: Instant, earlier: Instant)
    ensures
        ({
            let d = total_nanos(later) - total_nanos(earlier);
            let m = whole_minutes_between(later, earlier);
            let h = whole_hours_between(later, earlier);
            &&& d >= 0 ==> 60_000_000_000 * m <= d < 60_000_000_000 * (m + 1)
            &&& d < 0 ==> 60_000_000_000 * (m - 1) < d <= 60_000_000_000 * m
            &&& d >= 0 ==> 3_600_000_000_000 * h <= d < 3_600_000_000_000 * (h + 1)
            &&& d < 0 ==> 3_600_000_000_000 * (h - 1) < d <= 3_600_000_000_000 * h
        }),
        whole_minutes_between(later, earlier) == -whole_minutes_between(earlier, later),
        whole_hours_between(later, earlier) == -whole_hours_between(earlier, later),
{
    let d = total_nanos(later) - total_nanos(earlier);
    if d >= 0 {
        lemma_round_twice(d, 60);
        lemma_round_twice(d, 3600);
        assert(d / NANOS_PER_SEC as int >= 0);
    } else {
        lemma_round_twice(-d, 60);
        lemma_round_twice(-d, 3600);
        assert((-d) / NANOS_PER_SEC as int >= 0);
    }
    let e = total_nanos(earlier) - total_nanos(later);
    assert(e == -d);
    if d > 0 {
        assert((-e) / NANOS_PER_SEC as int >= 0);
    }
    if d == 0 {
        assert(whole_seconds_between(later, earlier) == 0);
        assert(whole_seconds_between(earlier, later) == 0);
    }
}

fn whole_seconds(later: Instant, earlier: Instant) -> (s: i128)
    ensures
        s as int == whole_seconds_between(later, earlier),
        -0x2_0000_0000_0000_0000 <= s <= 0x2_0000_0000_0000_0000,
{
    let a: i128 = later.secs as i128 * 1_000_000_000 + later.nanos as i128;
    let b: i128 = earlier.secs as i128 * 1_000_000_000 + earlier.nanos as i128;
    let d: i128 = a - b;
    let s: i128 = if d >= 0 {
        d / 1_000_000_000
    } else {
        -((-d) / 1_000_000_000)
    };
    assert(-0x1_0000_0000_0000_0000 * 1_000_000_000 - 0x1_0000_0000 <= d <= 0x1_0000_0000_0000_0000
        * 1_000_000_000 + 0x1_0000_0000) by (nonlinear_arith)
        requires
            d == a - b,
            a == later.secs * 1_000_000_000 + later.nanos,
            b == earlier.secs * 1_000_000_000 + earlier.nanos,
            -0x8000_0000_0000_0000 <= later.secs <= 0x7fff_ffff_ffff_ffff,
            -0x8000_0000_0000_0000 <= earlier.secs <= 0x7fff_ffff_ffff_ffff,
            0 <= later.nanos <= 0xffff_ffff,
            0 <= earlier.nanos <= 0xffff_ffff,
    ;
    s
}

/// Whole minutes from `earlier` to `later`, rounded toward zero.
pub fn minutes_between(later: Instant, earlier: Instant) -> (m: i64)
    ensures
        m as int == whole_minutes_between(later, earlier),
{
    let s = whole_seconds(later, earlier);
    let m: i128 = if s >= 0 {
        s / 60
    } else {
        -((-s) / 60)
    };
    m as i64
}

/// Whole hours from `earlier` to `later`, rounded toward zero.
pub fn hours_between(later: Instant, earlier: Instant) -> (h: i64)
    ensures
        h as int == whole_hours_between(later, earlier),
{
    let s = whole_seconds(later, earlier);
    let h: i128 = if s >= 0 {
        s / 3600
    } else {
        -((-s) / 3600)
    };
    h as i64
}

/// When the next scheduled run is due after a run at `last`: one check
/// interval later, as RFC 3339 text.
pub fn next_run_text(last: Instant) -> (r: String)
    requires
        is_plain(last),
        FIRST_FOUR_DIGIT_YEAR_SEC <= last.secs + CHECK_INTERVAL_SECS <= LAST_FOUR_DIGIT_YEAR_SEC,
    ensures
        r@ == rfc3339_text(last.secs + CHECK_INTERVAL_SECS, last.nanos as int),
{
    chrono_rfc3339_text(Instant { secs: last.secs + CHECK_INTERVAL_SECS, nanos: last.nanos })
}

} // verus!
