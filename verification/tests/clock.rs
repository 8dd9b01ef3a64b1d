use flight_tracker::clock::{
    hours_between, last_run_record, minutes_between, next_run_text, parse_last_run, parse_timestamp,
    timestamp_text, Instant,
};
use flight_tracker::health::{should_run_at, HealthState};

fn at(secs: i64, nanos: u32) -> Instant {
    Instant { secs, nanos }
}

#[test]
fn timestamp_text_is_rfc3339() {
    assert_eq!(timestamp_text(at(1773403200, 0)), "2026-03-13T12:00:00+00:00");
    assert_eq!(timestamp_text(at(1773403200, 500_000_000)), "2026-03-13T12:00:00.500+00:00");
    assert_eq!(timestamp_text(at(-60, 0)), "1969-12-31T23:59:00+00:00");
}

#[test]
fn last_run_record_reads_back() {
    for i in [at(1773403200, 0), at(1773403200, 123_456_789), at(0, 1_000), at(-62167219200, 0), at(253402300799, 999_999_999)] {
        let record = last_run_record(i);
        assert_eq!(parse_last_run(&record), Some(i));
        assert_eq!(parse_last_run(&format!("  {}\n", record)), Some(i));
    }
}

#[test]
fn last_run_parsing() {
    assert_eq!(parse_last_run("2026-03-13T12:00:00+00:00\n"), Some(at(1773403200, 0)));
    assert_eq!(parse_last_run("2026-03-13T14:00:00+02:00"), Some(at(1773403200, 0)));
    assert_eq!(parse_last_run("\u{3000}2026-03-13T12:00:00Z\t"), Some(at(1773403200, 0)));
    assert_eq!(parse_last_run(""), None);
    assert_eq!(parse_last_run("yesterday"), None);
    assert_eq!(parse_last_run("2026-03-13"), None);
    assert_eq!(parse_timestamp(" 2026-03-13T12:00:00+00:00"), None);
    assert_eq!(parse_timestamp("2026-03-13T12:00:00+00:00"), Some(at(1773403200, 0)));
}

#[test]
fn whole_minutes_and_hours_round_toward_zero() {
    let base = at(1773403200, 0);
    assert_eq!(minutes_between(at(1773403200 + 779 * 60 + 59, 999_999_999), base), 779);
    assert_eq!(minutes_between(at(1773403200 + 780 * 60, 0), base), 780);
    assert_eq!(minutes_between(at(1773403200 - 90, 500_000_000), base), -1);
    assert_eq!(hours_between(at(1773403200 + 12 * 3600 - 1, 0), base), 11);
    assert_eq!(hours_between(at(1773403200 + 12 * 3600, 0), base), 12);
    assert_eq!(hours_between(at(1773403200 - 3599, 0), base), 0);
    assert_eq!(minutes_between(at(i64::MAX, 999_999_999), at(i64::MIN, 0)), 307445734561825860);
}

#[test]
fn health_from_the_last_run() {
    let last = at(1773403200, 0);
    assert_eq!(HealthState::at(last, None), HealthState::NoRunsYet);
    assert_eq!(HealthState::at(at(1773403200 + 779 * 60, 0), Some(last)), HealthState::Healthy);
    assert_eq!(HealthState::at(at(1773403200 + 780 * 60, 0), Some(last)), HealthState::Stale);
    assert!(should_run_at(last, None));
    assert!(!should_run_at(at(1773403200 + 11 * 3600, 0), Some(last)));
    assert!(should_run_at(at(1773403200 + 12 * 3600, 0), Some(last)));
}

#[test]
fn fresh_record_is_healthy() {
    let now = at(1773403200, 250_000_000);
    let last = parse_last_run(&last_run_record(now)).unwrap();
    assert_eq!(HealthState::at(now, Some(last)), HealthState::Healthy);
    assert!(!should_run_at(now, Some(last)));
}

#[test]
fn next_run_is_twelve_hours_later() {
    assert_eq!(next_run_text(at(1773403200, 0)), "2026-03-14T00:00:00+00:00");
}
