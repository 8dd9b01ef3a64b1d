//! The watchdog's view of the scheduler: whether the last check cycle is
//! recent enough, what the health endpoint answers, and whether the tracker
//! runs a check right away when it starts.

use vstd::prelude::*;

use crate::clock::{CHECK_INTERVAL_SECS, hours_between, is_plain, minutes_between, whole_hours_between, whole_minutes_between, Instant};

verus! {

/// Hours between two scheduled check cycles.
pub const CHECK_INTERVAL_HOURS: i64 = 12;

/// A last run this many minutes ago or longer (13 hours) is stale.
pub const STALE_AFTER_MINUTES: i64 = 780;

/// HTTP status of a healthy answer.
pub const HTTP_OK: u16 = 200;

/// HTTP status of an unhealthy answer.
pub const HTTP_SERVICE_UNAVAILABLE: u16 = 503;

/// Health of the scheduler.
#[derive(Debug, Clone, Copy, PartialEq, Eq, Structural)]
pub enum HealthState {
    /// No check cycle has run yet.
    NoRunsYet,
    /// The last cycle ran less than 13 hours ago.
    Healthy,
    /// The last cycle ran 13 hours ago or more.
    Stale,
}

pub open spec fn health_state_name(s: HealthState) -> Seq<char> {
    match s {
        HealthState::NoRunsYet => "no_runs_yet"@,
        HealthState::Healthy => "ok"@,
        HealthState::Stale => "stale"@,
    }
}

pub open spec fn spec_health_state(minutes_since_last_run: Option<i64>) -> HealthState {
    match minutes_since_last_run {
        None => HealthState::NoRunsYet,
        Some(m) => if m < STALE_AFTER_MINUTES {
            HealthState::Healthy
        } else {
            HealthState::Stale
        },
    }
}

impl HealthState {
    /// The status text of the health answer.
    pub fn as_str(&self) -> (r: &'static str)
        ensures
            r@ == health_state_name(*self),
    {
        match self {
            HealthState::NoRunsYet => "no_runs_yet",
            HealthState::Healthy => "ok",
            HealthState::Stale => "stale",
        }
    }

    /// The health given the whole minutes since the last run, if there was
    /// one. (Comparing `minutes / 60` hours with 13 is comparing the minutes
    /// with 780.)
    pub fn from_minutes_since_last_run(minutes_since_last_run: Option<i64>) -> (r: HealthState)
        ensures
            r == spec_health_state(minutes_since_last_run),
    {
        match minutes_since_last_run {
            None => HealthState::NoRunsYet,
            Some(m) => if m < STALE_AFTER_MINUTES {
                HealthState::Healthy
            } else {
                HealthState::Stale
            },
        }
    }

    /// The HTTP status the health endpoint answers with: 200 unless stale.
    pub fn http_status(&self) -> (code: u16)
        ensures
            code == (if *self == HealthState::Stale {
                HTTP_SERVICE_UNAVAILABLE
            } else {
                HTTP_OK
            }),
    {
        match self {
            HealthState::Stale => HTTP_SERVICE_UNAVAILABLE,
            _ => HTTP_OK,
        }
    }
}

pub open spec fn spec_should_run_now(hours_since_last_run: Option<i64>) -> bool {
    match hours_since_last_run {
        None => true,
        Some(h) => h >= CHECK_INTERVAL_HOURS,
    }
}

/// Whether the tracker runs a check at start-up: when it never ran, or when
/// the last run is a full check interval (12 hours) or more ago.
pub fn should_run_now(hours_since_last_run: Option<i64>) -> (r: bool)
    ensures
        r == spec_should_run_now(hours_since_last_run),
{
    match hours_since_last_run {
        None => true,
        Some(h) => h >= CHECK_INTERVAL_HOURS,
    }
}

impl HealthState {
    /// The health at `now` given the last run, if there was one: its age in
    /// whole minutes decides.
    pub fn at(now: Instant, last_run: Option<Instant>) -> (r: HealthState)
        requires
            is_plain(now),
            last_run matches Some(l) ==> is_plain(l),
        ensures
            r == spec_health_state(
                match last_run {
                    Some(l) => Some(whole_minutes_between(now, l) as i64),
                    None => None,
                },
            ),
    {
        match last_run {
            None => HealthState::from_minutes_since_last_run(None),
            Some(l) => HealthState::from_minutes_since_last_run(Some(minutes_between(now, l))),
        }
    }
}

/// Whether the tracker runs a check at start-up at `now`, given the last run:
/// its age in whole hours decides.
pub fn should_run_at(now: Instant, last_run: Option<Instant>) -> (r: bool)
    requires
        is_plain(now),
        last_run matches Some(l) ==> is_plain(l),
    ensures
        r == spec_should_run_now(
            match last_run {
                Some(l) => Some(whole_hours_between(now, l) as i64),
                None => None,
            },
        ),
{
    match last_run {
        None => should_run_now(None),
        Some(l) => should_run_now(Some(hours_between(now, l))),
    }
}

/// Health law: with no recorded run the tracker reports no runs yet; a
/// recorded run is never reported as none: it is healthy when it is less than
/// 13 hours (780 minutes) old and stale from then on. Only a stale tracker
/// answers HTTP 503; the others answer 200. A start-up check runs when there
/// was no run or the last one is 12 hours old or more.
pub proof fn law_health_of_last_run(minutes: i64, hours: i64)
    ensures
        spec_health_state(None) == HealthState::NoRunsYet,
        spec_health_state(Some(minutes)) != HealthState::NoRunsYet,
        minutes < 780 ==> spec_health_state(Some(minutes)) == HealthState::Healthy,
        minutes >= 780 ==> spec_health_state(Some(minutes)) == HealthState::Stale,
        hours >= 12 ==> spec_should_run_now(Some(hours)),
        hours < 12 ==> !spec_should_run_now(Some(hours)),
        spec_should_run_now(None),
{
}

/// Interval law: the next run is announced one check interval after the
/// last, and that interval is the scheduler's twelve hours.
pub proof fn law_check_interval_is_twelve_hours()
    ensures
        CHECK_INTERVAL_HOURS == 12,
        CHECK_INTERVAL_SECS == CHECK_INTERVAL_HOURS * 3600,
        STALE_AFTER_MINUTES == 13 * 60,
{
}

/// Start-up law: a tracker whose health is anything but fresh runs a check
/// at once. A missing run or a stale one (13 hours or more) is at least a
/// full interval old.
pub proof fn law_unhealthy_tracker_checks_at_startup(minutes: Option<i64>, hours: Option<i64>)
    requires
        minutes is None <==> hours is None,
        minutes matches Some(m) ==> hours matches Some(h) && h == m / 60,
        spec_health_state(minutes) != HealthState::Healthy,
    ensures
        spec_should_run_now(hours),
{
}

/// Fresh-record law: right after a run is recorded, reading the record back
/// gives a healthy tracker that does not need a start-up check.
pub proof fn law_fresh_record_is_healthy(now: Instant)
    ensures
        whole_minutes_between(now, now) == 0,
        spec_health_state(Some(whole_minutes_between(now, now) as i64)) == HealthState::Healthy,
        !spec_should_run_now(Some(whole_hours_between(now, now) as i64)),
{
}

} // verus!
