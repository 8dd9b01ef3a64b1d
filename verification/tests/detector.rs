use flight_tracker::baseline::{
    learning_status, no_prices_status, percentile, percentile_index, RoutePhase, RouteStatus,
    LEARNING_DAYS_REQUIRED,
};
use flight_tracker::detector::{classify, ready_baseline_for, DealSeverity};

/// The threshold comparisons that the tracker makes on prices, with the
/// default configuration (1.5 standard deviations, 0.85 of p25).
fn judge(price: f64, mean: f64, stddev: f64, p25: f64) -> Option<DealSeverity> {
    let below_stddev = price < mean - 1.5 * stddev;
    let below_p25 = price < p25 * 0.85;
    classify(below_stddev, below_p25)
}

#[test]
fn classify_good_deal_below_stddev_threshold_only() {
    // mean=900, stddev=100 -> 750; p25=850 -> 722.5; 740 is below 750 only.
    assert_eq!(judge(740.0, 900.0, 100.0, 850.0), Some(DealSeverity::GoodDeal));
}

#[test]
fn classify_good_deal_below_p25_threshold_only() {
    // mean=900, stddev=10 -> 885; p25=1100 -> 935; 890 is below 935 but not below 885.
    assert_eq!(judge(890.0, 900.0, 10.0, 1100.0), Some(DealSeverity::GoodDeal));
}

#[test]
fn classify_exceptional_deal_below_both() {
    // mean=900, stddev=100 -> 750; p25=800 -> 680; 650 is below both.
    assert_eq!(judge(650.0, 900.0, 100.0, 800.0), Some(DealSeverity::ExceptionalDeal));
}

#[test]
fn classify_no_deal_at_normal_price() {
    assert_eq!(judge(870.0, 900.0, 100.0, 800.0), None);
    // Exactly at a threshold is not below it.
    assert_eq!(judge(750.0, 900.0, 100.0, 800.0), None);
}

#[test]
fn classify_truth_table() {
    assert_eq!(classify(false, false), None);
    assert_eq!(classify(true, false), Some(DealSeverity::GoodDeal));
    assert_eq!(classify(false, true), Some(DealSeverity::GoodDeal));
    assert_eq!(classify(true, true), Some(DealSeverity::ExceptionalDeal));
}

#[test]
fn severity_names() {
    assert_eq!(DealSeverity::GoodDeal.as_str(), "good_deal");
    assert_eq!(DealSeverity::ExceptionalDeal.as_str(), "exceptional_deal");
}

fn ready(origin: &str, destination: &str, baseline: u32) -> RouteStatus<u32> {
    RouteStatus::Ready { origin: origin.to_string(), destination: destination.to_string(), baseline }
}

#[test]
fn prices_are_judged_against_ready_routes_only() {
    let statuses = vec![
        learning_status::<u32>("LAX", "NRT", 3).unwrap(),
        ready("LAX", "HND", 7),
        ready("SFO", "NRT", 9),
    ];
    assert_eq!(ready_baseline_for(&statuses, "LAX", "NRT"), None);
    assert_eq!(ready_baseline_for(&statuses, "LAX", "HND"), Some(&7));
    assert_eq!(ready_baseline_for(&statuses, "SFO", "NRT"), Some(&9));
    assert_eq!(ready_baseline_for(&statuses, "SEA", "NRT"), None);
}

#[test]
fn first_status_for_a_route_decides() {
    let statuses = vec![ready("LAX", "NRT", 1), ready("LAX", "NRT", 2)];
    assert_eq!(ready_baseline_for(&statuses, "LAX", "NRT"), Some(&1));
    let learning_first = vec![learning_status::<u32>("LAX", "NRT", 0).unwrap(), ready("LAX", "NRT", 2)];
    assert_eq!(ready_baseline_for(&learning_first, "LAX", "NRT"), None);
}

#[test]
fn route_status_accessors() {
    let s = ready("BOS", "HND", 5);
    assert_eq!(s.origin(), "BOS");
    assert_eq!(s.destination(), "HND");
    assert!(s.is_ready());
    assert_eq!(s.baseline(), Some(&5));
    let l = learning_status::<u32>("BOS", "NRT", 13).unwrap();
    assert!(!l.is_ready());
    assert_eq!(l.baseline(), None);
    assert_eq!(l.destination(), "NRT");
}

#[test]
fn learning_phase_needs_fourteen_days() {
    assert_eq!(LEARNING_DAYS_REQUIRED, 14);
    match learning_status::<u32>("LAX", "NRT", 5).unwrap() {
        RouteStatus::Learning { origin, destination, days_collected, days_remaining } => {
            assert_eq!(origin, "LAX");
            assert_eq!(destination, "NRT");
            assert_eq!(days_collected, 5);
            assert_eq!(days_remaining, 9);
        }
        RouteStatus::Ready { .. } => panic!("expected a learning route"),
    }
    assert!(learning_status::<u32>("LAX", "NRT", 13).is_some());
    assert!(learning_status::<u32>("LAX", "NRT", 14).is_none());
    assert!(learning_status::<u32>("LAX", "NRT", 400).is_none());
    match no_prices_status::<u32>("LAX", "NRT") {
        RouteStatus::Learning { days_collected, days_remaining, .. } => {
            assert_eq!(days_collected, 0);
            assert_eq!(days_remaining, 14);
        }
        RouteStatus::Ready { .. } => panic!("expected a learning route"),
    }
}

#[test]
fn phase_matches_learning_status() {
    assert_eq!(RoutePhase::for_days(13), RoutePhase::Learning);
    assert_eq!(RoutePhase::for_days(14), RoutePhase::Active);
    assert_eq!(RoutePhase::for_days(13).as_str(), "learning");
    assert_eq!(RoutePhase::for_days(90).as_str(), "active");
    for d in 0..30u32 {
        assert_eq!(RoutePhase::for_days(d) == RoutePhase::Learning, learning_status::<u32>("A", "B", d).is_some());
    }
}

#[test]
fn percentile_positions() {
    // pct * (len - 1) / 100, rounded half up.
    assert_eq!(percentile_index(1, 50), 0);
    assert_eq!(percentile_index(11, 10), 1);
    assert_eq!(percentile_index(11, 25), 3); // 2.5 rounds up
    assert_eq!(percentile_index(11, 50), 5);
    assert_eq!(percentile_index(6, 10), 1); // 0.5 rounds up
    assert_eq!(percentile_index(5, 25), 1);
    assert_eq!(percentile_index(4, 50), 2); // 1.5 rounds up
    assert_eq!(percentile_index(10, 100), 9);
}

#[test]
fn percentile_values() {
    let sorted = [100.0, 200.0, 300.0, 400.0, 500.0];
    assert_eq!(percentile(&sorted, 10), Some(100.0));
    assert_eq!(percentile(&sorted, 25), Some(200.0));
    assert_eq!(percentile(&sorted, 50), Some(300.0));
    let empty: [f64; 0] = [];
    assert_eq!(percentile(&empty, 50), None);
    let p10 = percentile(&sorted, 10).unwrap();
    let p25 = percentile(&sorted, 25).unwrap();
    let median = percentile(&sorted, 50).unwrap();
    assert!(p10 <= p25 && p25 <= median);
}

#[test]
fn lower_prices_keep_their_deal() {
    // mean=900, stddev=100 -> 750; p25=800 -> 680.
    let mut last = None;
    for price in [900.0, 760.0, 749.0, 700.0, 679.0, 650.0, 100.0] {
        let v = judge(price, 900.0, 100.0, 800.0);
        if last.is_some() {
            assert!(v.is_some());
        }
        if last == Some(DealSeverity::ExceptionalDeal) {
            assert_eq!(v, Some(DealSeverity::ExceptionalDeal));
        }
        last = v;
    }
    assert_eq!(last, Some(DealSeverity::ExceptionalDeal));
}
