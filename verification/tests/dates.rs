use flight_tracker::dates::{return_date, weekend_dates, Date, FRIDAY, SATURDAY};

fn ymd(y: i32, m: u32, d: u32) -> Date {
    Date::from_ymd(y, m, d).unwrap()
}

#[test]
fn test_weekend_dates_only_fri_sat() {
    let from = ymd(2026, 3, 12); // Thursday
    let dates = weekend_dates(from, 14);
    for d in &dates {
        assert!(
            d.weekday() == FRIDAY || d.weekday() == SATURDAY,
            "Expected Fri or Sat, got {:?}",
            d.weekday()
        );
    }
    // 14 days from Thu Mar 12 (days 0..13): Mar 12..25
    // Fri Mar 13 (day 1), Sat Mar 14 (day 2), Fri Mar 20 (day 8), Sat Mar 21 (day 9) = 4
    assert_eq!(dates.len(), 4);
}

#[test]
fn test_return_date() {
    let friday = ymd(2026, 3, 13);
    assert_eq!(return_date(friday), ymd(2026, 3, 16)); // Monday

    let saturday = ymd(2026, 3, 14);
    assert_eq!(return_date(saturday), ymd(2026, 3, 17)); // Tuesday
}

#[test]
fn weekend_dates_are_the_exact_fridays_and_saturdays_in_order() {
    let dates = weekend_dates(ymd(2026, 3, 12), 14);
    let expected = vec![ymd(2026, 3, 13), ymd(2026, 3, 14), ymd(2026, 3, 20), ymd(2026, 3, 21)];
    assert_eq!(dates, expected);
}

#[test]
fn weekend_dates_empty_window() {
    assert!(weekend_dates(ymd(2026, 3, 13), 0).is_empty());
    // A window of Sunday to Thursday holds no weekend day.
    assert!(weekend_dates(ymd(2026, 3, 15), 5).is_empty());
}

#[test]
fn weekend_dates_window_end_is_exclusive() {
    // From Thursday, one day: only Thursday itself.
    assert!(weekend_dates(ymd(2026, 3, 12), 1).is_empty());
    // Two days reach Friday.
    assert_eq!(weekend_dates(ymd(2026, 3, 12), 2), vec![ymd(2026, 3, 13)]);
}

#[test]
fn weekend_return_weekdays() {
    // Friday returns Monday (0), Saturday returns Tuesday (1).
    assert_eq!(return_date(ymd(2026, 3, 13)).weekday(), 0);
    assert_eq!(return_date(ymd(2026, 3, 14)).weekday(), 1);
}

#[test]
fn day_numbers_follow_chrono() {
    // January 1 of year 1 is day 1, a Monday.
    let first = ymd(1, 1, 1);
    assert_eq!(first.day_number(), 1);
    assert_eq!(first.weekday(), 0);
    assert_eq!(ymd(2026, 3, 13).day_number(), 739688);
    assert_eq!(ymd(2026, 3, 12).weekday(), 3);
    assert!(Date::from_ymd(2026, 2, 29).is_none());
    assert!(Date::from_ymd(2026, 13, 1).is_none());
}

#[test]
fn day_number_range() {
    assert!(Date::from_day_number(739688).is_some());
    assert!(Date::from_day_number(-95746129).is_some());
    assert!(Date::from_day_number(95745399).is_some());
    assert!(Date::from_day_number(-95746130).is_none());
    assert!(Date::from_day_number(95745400).is_none());
    let last = Date::from_day_number(95745399).unwrap();
    assert!(last.add_days(1).is_none());
    assert_eq!(last.add_days(-3).unwrap().day_number(), 95745396);
}

#[test]
fn date_texts() {
    let d = ymd(2026, 3, 13);
    assert_eq!(d.iso_text(), "2026-03-13");
    assert_eq!(d.compact_text(), "260313");
}

#[test]
fn long_date_text_and_iso_parsing() {
    let d = ymd(2026, 3, 13);
    assert_eq!(d.long_text(), "Fri Mar 13, 2026");
    assert_eq!(Date::parse_iso("2026-03-13"), Some(d));
    assert_eq!(Date::parse_iso(&d.iso_text()), Some(d));
    assert_eq!(Date::parse_iso("2026-02-30"), None);
    assert_eq!(Date::parse_iso("13/03/2026"), None);
}

fn leap(y: i64) -> bool {
    y.rem_euclid(4) == 0 && (y.rem_euclid(100) != 0 || y.rem_euclid(400) == 0)
}

fn gregorian_day_number(y: i64, m: i64, d: i64) -> i64 {
    let before = [0, 31, 59, 90, 120, 151, 181, 212, 243, 273, 304, 334][(m - 1) as usize];
    let p = y - 1;
    365 * p + p.div_euclid(4) - p.div_euclid(100) + p.div_euclid(400) + before + (if m > 2 && leap(y) { 1 } else { 0 }) + d
}

#[test]
fn calendar_day_numbers() {
    assert_eq!(ymd(0, 12, 31).day_number(), 0);
    assert_eq!(ymd(-262143, 1, 1).day_number(), -95746129);
    assert_eq!(ymd(262142, 12, 31).day_number(), 95745399);
    assert!(Date::from_ymd(262143, 1, 1).is_none());
    assert!(Date::from_ymd(-262144, 12, 31).is_none());
    assert!(Date::from_ymd(2000, 2, 29).is_some());
    assert!(Date::from_ymd(1900, 2, 29).is_none());
    assert!(Date::from_ymd(2026, 4, 31).is_none());
    assert!(Date::from_ymd(2026, 0, 1).is_none());
    assert!(Date::from_ymd(2026, 1, 0).is_none());
    for y in [-262143i64, -1000, -401, -400, -100, -4, -1, 0, 1, 4, 100, 400, 1900, 2000, 2024, 2026, 9999, 262142] {
        for m in 1..=12i64 {
            for d in [1i64, 28, 29, 30, 31] {
                let got = Date::from_ymd(y as i32, m as u32, d as u32).map(|x| x.day_number() as i64);
                let len = match m {
                    2 => if leap(y) { 29 } else { 28 },
                    4 | 6 | 9 | 11 => 30,
                    _ => 31,
                };
                let expected = if d <= len { Some(gregorian_day_number(y, m, d)) } else { None };
                assert_eq!(got, expected, "{}-{}-{}", y, m, d);
            }
        }
    }
}
