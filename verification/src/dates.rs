//! Calendar dates as day numbers, and the weekend departure dates the
//! tracker searches.
//!
//! A [`Date`] is a day number in the proleptic Gregorian calendar with
//! January 1 of year 1 as day 1, the numbering that chrono's
//! `NaiveDate::num_days_from_ce` uses. Weekdays and calendar text come
//! from chrono.

use vstd::prelude::*;

verus! {

/// The first day that chrono's `NaiveDate` can hold (January 1, 262144 BCE).
pub const MIN_DAY: i32 = -95746129;

/// The last day that chrono's `NaiveDate` can hold (December 31, 262142 CE).
pub const MAX_DAY: i32 = 95745399;

/// Days between a weekend departure and its return.
pub const TRIP_LENGTH_DAYS: i32 = 3;

/// Weekday numbers, counted from Monday as 0.
pub const FRIDAY: u8 = 4;
pub const SATURDAY: u8 = 5;

pub open spec fn day_in_range(day: int) -> bool {
    MIN_DAY <= day <= MAX_DAY
}

/// Weekday of a day number, Monday = 0 .. Sunday = 6.
/// Day 1 (January 1, 1) was a Monday and weekdays cycle every seven days.
pub open spec fn weekday_of(day: int) -> int {
    (day + 6) % 7
}

/// Friday and Saturday are the departure days the tracker searches.
pub open spec fn is_weekend_departure(day: int) -> bool {
    weekday_of(day) == FRIDAY as int || weekday_of(day) == SATURDAY as int
}

/// The weekend departure days among `from, from + 1, .., from + count - 1`,
/// in increasing order.
pub open spec fn weekend_days(from: int, count: nat) -> Seq<int>
    decreases count,
{
    if count == 0 {
        Seq::empty()
    } else {
        let day = from + count - 1;
        let before = weekend_days(from, (count - 1) as nat);
        if is_weekend_departure(day) {
            before.push(day)
        } else {
            before
        }
    }
}

/// The first and last years chrono's `NaiveDate` holds.
pub const MIN_YEAR: i32 = -262143;
pub const MAX_YEAR: i32 = 262142;

/// A leap year of the proleptic Gregorian calendar.
pub open spec fn is_leap_year(year: int) -> bool {
    year % 4 == 0 && (year % 100 != 0 || year % 400 == 0)
}

pub open spec fn days_in_month(year: int, month: int) -> int {
    if month == 2 {
        if is_leap_year(year) {
            29
        } else {
            28
        }
    } else if month == 4 || month == 6 || month == 9 || month == 11 {
        30
    } else {
        31
    }
}

/// Days of the year before the first of `month`.
pub open spec fn days_before_month(year: int, month: int) -> int {
    let common: int = if month == 1 {
        0
    } else if month == 2 {
        31
    } else if month == 3 {
        59
    } else if month == 4 {
        90
    } else if month == 5 {
        120
    } else if month == 6 {
        151
    } else if month == 7 {
        181
    } else if month == 8 {
        212
    } else if month == 9 {
        243
    } else if month == 10 {
        273
    } else if month == 11 {
        304
    } else {
        334
    };
    if month > 2 && is_leap_year(year) {
        common + 1
    } else {
        common
    }
}

/// Days before January 1 of `year`, counted from January 1 of year 1
/// (negative before it).
pub open spec fn days_before_year(year: int) -> int {
    let p = year - 1;
    365 * p + p / 4 - p / 100 + p / 400
}

/// The day number of a calendar date, or `None` for a date that does not
/// exist or that chrono cannot hold: what chrono's
/// `NaiveDate::from_ymd_opt(year, month, day)` gives, as `num_days_from_ce`.
pub open spec fn ymd_day_number(year: i32, month: u32, day: u32) -> Option<int> {
    if MIN_YEAR <= year <= MAX_YEAR && 1 <= month <= 12 && 1 <= day <= days_in_month(year as int, month as int) {
        Some(days_before_year(year as int) + days_before_month(year as int, month as int) + day)
    } else {
        None
    }
}

/// The text that chrono's `Display` for `NaiveDate` writes for a day
/// (ISO 8601, `YYYY-MM-DD` for years 0 to 9999).
pub uninterp spec fn iso_date_text(day: int) -> Seq<char>;

/// The text that chrono writes for a day under the pattern `%y%m%d`.
pub uninterp spec fn compact_date_text(day: int) -> Seq<char>;

/// The text that chrono writes for a day under the pattern `%a %b %d, %Y`
/// (`Fri Mar 13, 2026`).
pub uninterp spec fn long_date_text(day: int) -> Seq<char>;

/// The day number chrono's `NaiveDate::parse_from_str(text, "%Y-%m-%d")`
/// reads from a text, or `None` when it rejects the text.
pub uninterp spec fn iso_date_value(text: Seq<char>) -> Option<int>;

/// chrono's `NaiveDate::format("%a %b %d, %Y")` of
/// `NaiveDate::from_num_days_from_ce_opt(day)`. Claims: the text named by
/// `long_date_text`.
#[verifier::external_body]
fn chrono_long_text(day: i32) -> (t: String)
    requires
        day_in_range(day as int),
    ensures
        t@ == long_date_text(day as int),
{
    match chrono::NaiveDate::from_num_days_from_ce_opt(day) {
        Some(d) => d.format("%a %b %d, %Y").to_string(),
        None => String::new(),
    }
}

/// chrono's `NaiveDate::parse_from_str(text, "%Y-%m-%d")` followed by
/// `num_days_from_ce`. Claims: the day named by `iso_date_value`, which lies in
/// chrono's range, and `None` exactly when that is `None`.
#[verifier::external_body]
fn chrono_parse_iso(text: &str) -> (r: Option<i32>)
    ensures
        match r {
            Some(n) => iso_date_value(text@) == Some(n as int) && day_in_range(n as int),
            None => iso_date_value(text@) is None,
        },
{
    match chrono::NaiveDate::parse_from_str(text, "%Y-%m-%d") {
        Ok(d) => Some(chrono::Datelike::num_days_from_ce(&d)),
        Err(_) => None,
    }
}

/// chrono's `NaiveDate::from_ymd_opt` followed by `num_days_from_ce`.
/// Claims: the day number is the proleptic Gregorian count `ymd_day_number`,
/// in chrono's range; `None` exactly for a month, day or year that chrono
/// rejects.
#[verifier::external_body]
fn chrono_ymd_to_day(year: i32, month: u32, day: u32) -> (r: Option<i32>)
    ensures
        match r {
            Some(n) => ymd_day_number(year, month, day) == Some(n as int) && day_in_range(n as int),
            None => ymd_day_number(year, month, day) is None,
        },
{
    match chrono::NaiveDate::from_ymd_opt(year, month, day) {
        Some(d) => Some(chrono::Datelike::num_days_from_ce(&d)),
        None => None,
    }
}

/// chrono's `Datelike::weekday` (as `num_days_from_monday`) of the date
/// `NaiveDate::from_num_days_from_ce_opt(day)`. Claims: the weekday is
/// `weekday_of(day)`, since chrono's day 1 is January 1, 1, a Monday.
#[verifier::external_body]
fn chrono_weekday(day: i32) -> (w: u8)
    requires
        day_in_range(day as int),
    ensures
        w as int == weekday_of(day as int),
{
    match chrono::NaiveDate::from_num_days_from_ce_opt(day) {
        Some(d) => chrono::Datelike::weekday(&d).num_days_from_monday() as u8,
        None => 0,
    }
}

/// chrono's `Display` (`to_string`) of `NaiveDate::from_num_days_from_ce_opt(day)`.
/// Claims: the text is the one named by `iso_date_text`.
#[verifier::external_body]
fn chrono_iso_text(day: i32) -> (t: String)
    requires
        day_in_range(day as int),
    ensures
        t@ == iso_date_text(day as int),
{
    match chrono::NaiveDate::from_num_days_from_ce_opt(day) {
        Some(d) => d.to_string(),
        None => String::new(),
    }
}

/// chrono's `NaiveDate::format("%y%m%d")` of `NaiveDate::from_num_days_from_ce_opt(day)`.
/// Claims: the text is the one named by `compact_date_text`.
#[verifier::external_body]
fn chrono_compact_text(day: i32) -> (t: String)
    requires
        day_in_range(day as int),
    ensures
        t@ == compact_date_text(day as int),
{
    match chrono::NaiveDate::from_num_days_from_ce_opt(day) {
        Some(d) => d.format("%y%m%d").to_string(),
        None => String::new(),
    }
}

/// A calendar date that chrono can represent.
#[derive(Debug, Clone, Copy, PartialEq, Eq, Structural)]
pub struct Date {
    day: i32,
}

impl View for Date {
    type V = int;

    /// The day number, January 1 of year 1 being day 1.
    open spec fn view(&self) -> int {
        self.spec_day()
    }
}

impl Date {
    pub closed spec fn spec_day(self) -> int {
        self.day as int
    }

    #[verifier::type_invariant]
    spec fn in_range(self) -> bool {
        day_in_range(self.day as int)
    }

    /// The date with the given day number, if chrono can represent it.
    pub fn from_day_number(day: i32) -> (r: Option<Date>)
        ensures
            r is Some <==> day_in_range(day as int),
            r matches Some(d) ==> d@ == day as int,
    {
        if MIN_DAY <= day && day <= MAX_DAY {
            Some(Date { day })
        } else {
            None
        }
    }

    /// The date with the given year, month and day, if it exists.
    pub fn from_ymd(year: i32, month: u32, day: u32) -> (r: Option<Date>)
        ensures
            match r {
                Some(d) => ymd_day_number(year, month, day) == Some(d@),
                None => ymd_day_number(year, month, day) is None,
            },
    {
        match chrono_ymd_to_day(year, month, day) {
            Some(n) => Some(Date { day: n }),
            None => None,
        }
    }

    /// The date a `YYYY-MM-DD` text names, if it names one.
    pub fn parse_iso(text: &str) -> (r: Option<Date>)
        ensures
            match r {
                Some(d) => iso_date_value(text@) == Some(d@),
                None => iso_date_value(text@) is None,
            },
    {
        match chrono_parse_iso(text) {
            Some(n) => Some(Date { day: n }),
            None => None,
        }
    }

    /// The day number, January 1 of year 1 being day 1.
    pub fn day_number(&self) -> (n: i32)
        ensures
            n as int == self@,
            day_in_range(n as int),
    {
        proof {
            use_type_invariant(self);
        }
        self.day
    }

    /// Day of the week, Monday = 0 .. Sunday = 6.
    pub fn weekday(&self) -> (w: u8)
        ensures
            w as int == weekday_of(self@),
            w < 7,
    {
        proof {
            use_type_invariant(self);
        }
        chrono_weekday(self.day)
    }

    /// The date `n` days later (earlier for negative `n`), if chrono can hold it.
    pub fn add_days(&self, n: i32) -> (r: Option<Date>)
        ensures
            r is Some <==> day_in_range(self@ + n),
            r matches Some(d) ==> d@ == self@ + n,
    {
        proof {
            use_type_invariant(self);
        }
        let sum: i64 = self.day as i64 + n as i64;
        if MIN_DAY as i64 <= sum && sum <= MAX_DAY as i64 {
            Some(Date { day: sum as i32 })
        } else {
            None
        }
    }

    /// ISO 8601 text of the date, as chrono displays it (`2026-03-13`).
    pub fn iso_text(&self) -> (t: String)
        ensures
            t@ == iso_date_text(self@),
    {
        proof {
            use_type_invariant(self);
        }
        chrono_iso_text(self.day)
    }

    /// The date as `%a %b %d, %Y` (`Fri Mar 13, 2026`).
    pub fn long_text(&self) -> (t: String)
        ensures
            t@ == long_date_text(self@),
    {
        proof {
            use_type_invariant(self);
        }
        chrono_long_text(self.day)
    }

    /// The date as `%y%m%d` (`260313`).
    pub fn compact_text(&self) -> (t: String)
        ensures
            t@ == compact_date_text(self@),
    {
        proof {
            use_type_invariant(self);
        }
        chrono_compact_text(self.day)
    }
}

/// The day numbers of a sequence of dates.
pub open spec fn day_numbers(dates: Seq<Date>) -> Seq<int> {
    dates.map_values(|d: Date| d@)
}

/// All Friday and Saturday departure dates within `[from, from + days)`, in
/// increasing order.
pub fn weekend_dates(from: Date, days: u32) -> (r: Vec<Date>)
    requires
        from@ + days <= MAX_DAY + 1,
    ensures
        day_numbers(r@) == weekend_days(from@, days as nat),
{
    let mut result: Vec<Date> = Vec::new();
    let mut i: u32 = 0;
    while i < days
        invariant
            i <= days,
            from@ + days <= MAX_DAY + 1,
            day_numbers(result@) == weekend_days(from@, i as nat),
        decreases days - i,
    {
        proof {
            use_type_invariant(&from);
        }
        let date = Date { day: from.day + i as i32 };
        let w = date.weekday();
        if w == FRIDAY || w == SATURDAY {
            result.push(date);
        }
        proof {
            assert(day_numbers(result@) =~= weekend_days(from@, (i + 1) as nat));
        }
        i = i + 1;
    }
    result
}

/// The return date for a weekend departure: three days later
/// (Friday to Monday, Saturday to Tuesday).
pub fn return_date(departure: Date) -> (r: Date)
    requires
        departure@ + TRIP_LENGTH_DAYS <= MAX_DAY,
    ensures
        r@ == departure@ + TRIP_LENGTH_DAYS,
{
    proof {
        use_type_invariant(&departure);
    }
    Date { day: departure.day + TRIP_LENGTH_DAYS }
}

/// Weekend search law: the days `weekend_dates` returns are exactly the
/// Fridays and Saturdays of the window, each once, in increasing order.
pub proof fn law_weekend_days_are_exactly_the_window_weekends(from: int, count: nat)
    ensures
        forall|k: int|
            0 <= k < weekend_days(from, count).len() ==> from <= #[trigger] weekend_days(from, count)[k]
                < from + count && is_weekend_departure(weekend_days(from, count)[k]),
        forall|k: int, l: int|
            0 <= k < l < weekend_days(from, count).len() ==> #[trigger] weekend_days(from, count)[k]
                < #[trigger] weekend_days(from, count)[l],
        forall|d: int|
            from <= d < from + count && is_weekend_departure(d) ==> #[trigger] weekend_days(
                from,
                count,
            ).contains(d),
    decreases count,
{
    if count > 0 {
        law_weekend_days_are_exactly_the_window_weekends(from, (count - 1) as nat);
        let before = weekend_days(from, (count - 1) as nat);
        let day = from + count - 1;
        assert forall|d: int| from <= d < from + count && is_weekend_departure(d) implies #[trigger] weekend_days(
            from,
            count,
        ).contains(d) by {
            if d < day {
                assert(before.contains(d));
                let k = choose|k: int| 0 <= k < before.len() && before[k] == d;
                if is_weekend_departure(day) {
                    assert(before.push(day)[k] == d);
                    assert(weekend_days(from, count) == before.push(day));
                }
            } else {
                assert(weekend_days(from, count).last() == d);
            }
        }
    }
}

/// Return-date law: a Friday departure returns on a Monday and a Saturday
/// departure on a Tuesday.
pub proof fn law_weekend_return_weekday(departure: int)
    requires
        is_weekend_departure(departure),
    ensures
        weekday_of(departure) == FRIDAY as int ==> weekday_of(departure + TRIP_LENGTH_DAYS) == 0,
        weekday_of(departure) == SATURDAY as int ==> weekday_of(departure + TRIP_LENGTH_DAYS) == 1,
{
}

} // verus!
