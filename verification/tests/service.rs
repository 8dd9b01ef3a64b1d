use flight_tracker::status::{last_fetched_label, phase_label};
use flight_tracker::api::{history_route_label, DealsQuery, HistoryQuery};
use flight_tracker::config::{default_routes, parse_port, port_from_env, DEFAULT_API_PORT, DEFAULT_HEALTH_PORT};
use flight_tracker::dates::Date;
use flight_tracker::fetcher::{booking_url, fetch_plan, stub_base_fare, successes};
use flight_tracker::health::{should_run_now, HealthState};
use flight_tracker::source::Source;

#[test]
fn default_routes_cover_eight_origins_to_tokyo() {
    let routes = default_routes();
    let origins: Vec<&str> = routes.iter().map(|r| r.origin.as_str()).collect();
    assert_eq!(origins, vec!["LAX", "SFO", "JFK", "ORD", "SEA", "BOS", "DFW", "MIA"]);
    for r in &routes {
        assert_eq!(r.destinations, vec!["NRT".to_string(), "HND".to_string()]);
    }
}

#[test]
fn port_parsing() {
    assert_eq!(parse_port("3000"), Some(3000));
    assert_eq!(parse_port("+8081"), Some(8081));
    assert_eq!(parse_port("0"), Some(0));
    assert_eq!(parse_port("00042"), Some(42));
    assert_eq!(parse_port("65535"), Some(65535));
    assert_eq!(parse_port("65536"), None);
    assert_eq!(parse_port("99999999999"), None);
    assert_eq!(parse_port(""), None);
    assert_eq!(parse_port("+"), None);
    assert_eq!(parse_port("-1"), None);
    assert_eq!(parse_port(" 80"), None);
    assert_eq!(parse_port("80a"), None);
    for text in ["1", "443", "+9", "65535", "65536", "x", "12 ", "++1"] {
        assert_eq!(parse_port(text), text.parse::<u16>().ok());
    }
}

#[test]
fn port_from_environment_falls_back() {
    assert_eq!(port_from_env("4000", DEFAULT_API_PORT), 4000);
    assert_eq!(port_from_env("not-a-port", DEFAULT_API_PORT), 3000);
    assert_eq!(port_from_env("70000", DEFAULT_HEALTH_PORT), 8081);
}

#[test]
fn query_defaults() {
    let q = DealsQuery { limit: None, route: None };
    assert_eq!(q.limit_or_default(), 50);
    assert_eq!(q.route_filter(), None);
    let q = DealsQuery { limit: Some(5), route: Some("LAX-NRT".to_string()) };
    assert_eq!(q.limit_or_default(), 5);
    assert_eq!(q.route_filter(), Some("LAX-NRT"));
    let h = HistoryQuery { days: None, source: None };
    assert_eq!(h.days_or_default(), 30);
    assert_eq!(h.source_filter(), None);
    let h = HistoryQuery { days: Some(60), source: Some("all".to_string()) };
    assert_eq!(h.days_or_default(), 60);
    assert_eq!(h.source_filter(), None);
    let h = HistoryQuery { days: None, source: Some("kayak".to_string()) };
    assert_eq!(h.source_filter(), Some("kayak"));
}

#[test]
fn history_label_is_upper_case() {
    assert_eq!(history_route_label("lax-nrt"), "LAX-NRT");
    assert_eq!(history_route_label("Sfo-Hnd"), "SFO-HND");
}

#[test]
fn health_states() {
    assert_eq!(HealthState::from_minutes_since_last_run(None), HealthState::NoRunsYet);
    assert_eq!(HealthState::from_minutes_since_last_run(Some(0)), HealthState::Healthy);
    assert_eq!(HealthState::from_minutes_since_last_run(Some(779)), HealthState::Healthy);
    assert_eq!(HealthState::from_minutes_since_last_run(Some(780)), HealthState::Stale);
    assert_eq!(HealthState::NoRunsYet.as_str(), "no_runs_yet");
    assert_eq!(HealthState::Healthy.as_str(), "ok");
    assert_eq!(HealthState::Stale.as_str(), "stale");
    assert_eq!(HealthState::NoRunsYet.http_status(), 200);
    assert_eq!(HealthState::Healthy.http_status(), 200);
    assert_eq!(HealthState::Stale.http_status(), 503);
}

#[test]
fn stale_or_missing_runs_trigger_a_startup_check() {
    for minutes in [780i64, 900, 1440, 100_000] {
        assert_ne!(HealthState::from_minutes_since_last_run(Some(minutes)), HealthState::Healthy);
        assert!(should_run_now(Some(minutes / 60)));
    }
    assert_eq!(HealthState::from_minutes_since_last_run(None), HealthState::NoRunsYet);
    assert!(should_run_now(None));
}

#[test]
fn startup_check() {
    assert!(should_run_now(None));
    assert!(should_run_now(Some(12)));
    assert!(should_run_now(Some(40)));
    assert!(!should_run_now(Some(11)));
    assert!(!should_run_now(Some(0)));
}

#[test]
fn fetch_plan_order() {
    let dests = vec!["NRT".to_string(), "HND".to_string()];
    let fri = Date::from_ymd(2026, 3, 13).unwrap();
    let sat = Date::from_ymd(2026, 3, 14).unwrap();
    let plan = fetch_plan(&dests, &[fri, sat]);
    assert_eq!(plan.len(), 4);
    let got: Vec<(String, i32, i32)> = plan
        .iter()
        .map(|q| (q.destination.clone(), q.departure.day_number(), q.return_date.day_number()))
        .collect();
    assert_eq!(
        got,
        vec![
            ("NRT".to_string(), 739688, 739691),
            ("NRT".to_string(), 739689, 739692),
            ("HND".to_string(), 739688, 739691),
            ("HND".to_string(), 739689, 739692),
        ]
    );
    assert!(fetch_plan(&dests, &[]).is_empty());
}

#[test]
fn failed_sources_are_dropped() {
    let outcomes: Vec<Result<u32, &str>> = vec![Ok(1), Err("rate limited"), Ok(3), Err("no results")];
    assert_eq!(successes(outcomes), vec![1, 3]);
    let none: Vec<Result<u32, &str>> = vec![Err("down")];
    assert!(successes(none).is_empty());
}

#[test]
fn stub_fares() {
    assert_eq!(stub_base_fare("LAX"), 850);
    assert_eq!(stub_base_fare("MIA"), 1020);
    assert_eq!(stub_base_fare("SEA"), 800);
    assert_eq!(stub_base_fare("XYZ"), 900);
}

#[test]
fn booking_links() {
    let d = Date::from_ymd(2026, 4, 3).unwrap();
    assert_eq!(
        booking_url(Source::GoogleFlights, "LAX", "NRT", d),
        "https://flights.google.com/search?q=flights+LAX+to+NRT+2026-04-03"
    );
    assert_eq!(booking_url(Source::Kayak, "LAX", "NRT", d), "https://www.kayak.com/flights/LAX-NRT/2026-04-03/");
    assert_eq!(
        booking_url(Source::Skyscanner, "LAX", "NRT", d),
        "https://www.skyscanner.com/transport/flights/LAX/NRT/260403/"
    );
}

#[test]
fn status_labels() {
    assert_eq!(phase_label(3), "LEARNING (day 3 of 14)");
    assert_eq!(phase_label(0), "LEARNING (day 0 of 14)");
    assert_eq!(phase_label(14), "ACTIVE");
    assert_eq!(last_fetched_label(None), "never");
    assert_eq!(last_fetched_label(Some(0)), "<1h ago");
    assert_eq!(last_fetched_label(Some(-2)), "<1h ago");
    assert_eq!(last_fetched_label(Some(5)), "5h ago");
    assert_eq!(last_fetched_label(Some(130)), "130h ago");
}
