use flight_tracker::dates::Date;
use flight_tracker::dedup::{decide_alert, fingerprint, select_alerts, AlertDecision};
use flight_tracker::text::decimal;
use flight_tracker::detector::DealSeverity;
use flight_tracker::notifier::{
    embed_color, embed_description, embed_title, next_delivery_action, DeliveryAction,
    COLOR_EXCEPTIONAL_DEAL, COLOR_GOOD_DEAL, MAX_DELIVERY_ATTEMPTS,
};

#[test]
fn fingerprint_is_sha256_hex_of_the_deal_tier() {
    let date = Date::from_ymd(2026, 4, 3).unwrap();
    assert_eq!(
        fingerprint("LAX", "NRT", date, 700),
        "7102567ca0029424f9920413f9a36b4745b8bcd8321f56912b7016522dbb18dd"
    );
    let date = Date::from_ymd(2026, 3, 13).unwrap();
    assert_eq!(
        fingerprint("SFO", "HND", date, 850),
        "dce567b9477796e36b3cadb19913b4c63f46ca5a8fa7abafe372f396b9ac02c0"
    );
}

#[test]
fn fingerprint_depends_on_every_part() {
    let d1 = Date::from_ymd(2026, 4, 3).unwrap();
    let d2 = Date::from_ymd(2026, 4, 4).unwrap();
    let base = fingerprint("LAX", "NRT", d1, 700);
    assert_eq!(base.len(), 64);
    assert_eq!(base, fingerprint("LAX", "NRT", d1, 700));
    assert_ne!(base, fingerprint("LAX", "NRT", d1, 650));
    assert_ne!(base, fingerprint("LAX", "HND", d1, 700));
    assert_ne!(base, fingerprint("SFO", "NRT", d1, 700));
    assert_ne!(base, fingerprint("LAX", "NRT", d2, 700));
}

#[test]
fn decimal_text() {
    assert_eq!(decimal(0), "0");
    assert_eq!(decimal(7), "7");
    assert_eq!(decimal(700), "700");
    assert_eq!(decimal(u64::MAX), "18446744073709551615");
}

#[test]
fn alert_decisions() {
    assert_eq!(decide_alert(true, None), AlertDecision::DuplicateFingerprint);
    assert_eq!(decide_alert(true, Some(true)), AlertDecision::DuplicateFingerprint);
    assert_eq!(decide_alert(false, Some(false)), AlertDecision::InsufficientDrop);
    assert_eq!(decide_alert(false, Some(true)), AlertDecision::Alert);
    assert_eq!(decide_alert(false, None), AlertDecision::Alert);
    assert!(decide_alert(false, None).should_alert());
    assert!(!decide_alert(false, Some(false)).should_alert());
    assert!(!decide_alert(true, Some(true)).should_alert());
}

#[test]
fn realert_needs_a_ten_percent_drop() {
    // Last alert at 700 with the default 10% threshold: re-alert below 630.
    let threshold = 700.0 * (1.0 - 0.10);
    assert_eq!(decide_alert(false, Some(640.0 < threshold)), AlertDecision::InsufficientDrop);
    assert_eq!(decide_alert(false, Some(620.0 < threshold)), AlertDecision::Alert);
}

#[test]
fn delivery_success_records_real_alerts_only() {
    assert_eq!(next_delivery_action(1, 200, false), DeliveryAction::Delivered { record_alert: true });
    assert_eq!(next_delivery_action(2, 204, false), DeliveryAction::Delivered { record_alert: true });
    assert_eq!(next_delivery_action(1, 204, true), DeliveryAction::Delivered { record_alert: false });
}

#[test]
fn delivery_server_errors_back_off_then_give_up() {
    assert_eq!(next_delivery_action(1, 500, false), DeliveryAction::RetryAfter { wait_secs: 2 });
    assert_eq!(next_delivery_action(2, 503, false), DeliveryAction::RetryAfter { wait_secs: 4 });
    assert_eq!(
        next_delivery_action(MAX_DELIVERY_ATTEMPTS, 502, false),
        DeliveryAction::GiveUpAfter { wait_secs: 8, status: 502 }
    );
}

#[test]
fn delivery_rejections_are_final() {
    assert_eq!(next_delivery_action(1, 400, false), DeliveryAction::Rejected { status: 400 });
    assert_eq!(next_delivery_action(2, 404, true), DeliveryAction::Rejected { status: 404 });
    assert_eq!(next_delivery_action(1, 302, false), DeliveryAction::Rejected { status: 302 });
    assert_eq!(next_delivery_action(1, 199, false), DeliveryAction::Rejected { status: 199 });
}

#[test]
fn delivery_makes_at_most_three_requests() {
    let mut attempt = 1u8;
    let mut requests = 0;
    loop {
        requests += 1;
        match next_delivery_action(attempt, 500, false) {
            DeliveryAction::RetryAfter { .. } => attempt += 1,
            _ => break,
        }
    }
    assert_eq!(requests, 3);
}

#[test]
fn embed_text() {
    assert_eq!(embed_color(DealSeverity::GoodDeal), COLOR_GOOD_DEAL);
    assert_eq!(embed_color(DealSeverity::ExceptionalDeal), COLOR_EXCEPTIONAL_DEAL);
    assert_eq!(COLOR_GOOD_DEAL, 0x2ECC71);
    assert_eq!(COLOR_EXCEPTIONAL_DEAL, 0xF1C40F);
    assert_eq!(embed_title("LAX", "NRT", false), "\u{2708}\u{fe0f} Flight Deal: LAX \u{2192} NRT");
    assert_eq!(embed_title("LAX", "NRT", true), "[TEST] \u{2708}\u{fe0f} Flight Deal: LAX \u{2192} NRT");
    assert_eq!(embed_description(Some("https://x.test/b")), "[Book now](https://x.test/b)");
    assert_eq!(embed_description(None), "Search on Google Flights");
}

#[test]
fn fingerprint_is_64_lower_hex_digits() {
    let d = Date::from_ymd(2026, 4, 3).unwrap();
    for bucket in [0u64, 50, 850, u64::MAX] {
        let f = fingerprint("LAX", "NRT", d, bucket);
        assert_eq!(f.len(), 64);
        assert!(f.chars().all(|c| c.is_ascii_digit() || ('a'..='f').contains(&c)));
    }
}

#[test]
fn one_alert_per_fingerprint_in_a_batch() {
    let d = Date::from_ymd(2026, 4, 3).unwrap();
    // Google's 850 and Kayak's 875.50 fall in the same $50 bucket.
    let same = fingerprint("LAX", "NRT", d, 850);
    let other = fingerprint("LAX", "NRT", d, 800);
    let fps = vec![same.clone(), other.clone(), same.clone(), other.clone(), same.clone()];
    assert_eq!(select_alerts(&fps, &vec![AlertDecision::Alert, AlertDecision::Alert, AlertDecision::Alert, AlertDecision::Alert, AlertDecision::Alert]), vec![0, 1]);
    assert_eq!(select_alerts(&fps, &vec![AlertDecision::DuplicateFingerprint, AlertDecision::Alert, AlertDecision::Alert, AlertDecision::Alert, AlertDecision::Alert]), vec![1, 2]);
    assert_eq!(select_alerts(&fps, &vec![AlertDecision::InsufficientDrop, AlertDecision::InsufficientDrop, AlertDecision::InsufficientDrop, AlertDecision::Alert, AlertDecision::Alert]), vec![3, 4]);
    assert!(select_alerts(&vec![], &vec![]).is_empty());
}

#[test]
fn exact_requests_for_answer_streams() {
    assert_eq!(requests(&[200, 500, 500]), 1);
    assert_eq!(requests(&[500, 204, 500]), 2);
    assert_eq!(requests(&[500, 503, 400]), 3);
    assert_eq!(requests(&[500, 503, 502, 200]), 3);
    assert_eq!(requests(&[404, 500, 500]), 1);
}

fn requests(answers: &[u16]) -> usize {
    let mut attempt = 1u8;
    let mut made = 0;
    for &status in answers {
        made += 1;
        match next_delivery_action(attempt, status, false) {
            DeliveryAction::RetryAfter { .. } => attempt += 1,
            _ => break,
        }
    }
    made
}
