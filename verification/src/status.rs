//! The labels of the `status` command's route table.

use vstd::prelude::*;

use crate::baseline::{RoutePhase, spec_route_phase, LEARNING_DAYS_REQUIRED};
use crate::config::digits_value;
use crate::text::{decimal, decimal_text};

verus! {

pub open spec fn phase_label_text(days_of_data: u32) -> Seq<char> {
    if spec_route_phase(days_of_data) == RoutePhase::Active {
        "ACTIVE"@
    } else {
        "LEARNING (day "@ + decimal_text(days_of_data as nat) + " of "@ + decimal_text(
            LEARNING_DAYS_REQUIRED as nat,
        ) + ")"@
    }
}

/// The phase column: `ACTIVE`, or `LEARNING (day 3 of 14)` while learning.
pub fn phase_label(days_of_data: u32) -> (t: String)
    ensures
        t@ == phase_label_text(days_of_data),
{
    match RoutePhase::for_days(days_of_data) {
        RoutePhase::Active => "ACTIVE".to_owned(),
        RoutePhase::Learning => {
            let mut t = "LEARNING (day ".to_owned();
            let days = decimal(days_of_data as u64);
            t.append(days.as_str());
            t.append(" of ");
            let total = decimal(LEARNING_DAYS_REQUIRED as u64);
            t.append(total.as_str());
            t.append(")");
            t
        },
    }
}

pub open spec fn last_fetched_text(hours_ago: Option<i64>) -> Seq<char> {
    match hours_ago {
        None => "never"@,
        Some(h) => if h < 1 {
            "<1h ago"@
        } else {
            decimal_text(h as nat) + "h ago"@
        },
    }
}

/// The last-fetched column: `never`, `<1h ago`, or whole hours such as `5h ago`.
pub fn last_fetched_label(hours_ago: Option<i64>) -> (t: String)
    ensures
        t@ == last_fetched_text(hours_ago),
{
    match hours_ago {
        None => "never".to_owned(),
        Some(h) => if h < 1 {
            "<1h ago".to_owned()
        } else {
            let mut t = decimal(h as u64);
            t.append("h ago");
            t
        },
    }
}

/// Last-fetched law: a price fetched an hour or more ago shows its age as
/// whole hours followed by `h ago`, and reading those digits gives the age
/// back; a younger one shows `<1h ago`, and none shows `never`.
pub proof fn law_last_fetched_reads_back(hours_ago: i64)
    ensures
        last_fetched_text(None) == "never"@,
        hours_ago < 1 ==> last_fetched_text(Some(hours_ago)) == "<1h ago"@,
        hours_ago >= 1 ==> ({
            let t = last_fetched_text(Some(hours_ago));
            &&& t.len() > 5
            &&& t.subrange(t.len() - 5, t.len() as int) == "h ago"@
            &&& digits_value(t.subrange(0, t.len() - 5)) == hours_ago
        }),
{
    if hours_ago >= 1 {
        reveal_strlit("h ago");
        crate::config::law_decimal_text_reads_back(hours_ago as nat);
        let d = decimal_text(hours_ago as nat);
        let t = last_fetched_text(Some(hours_ago));
        assert(t == d + "h ago"@);
        assert(t.subrange(0, t.len() - 5) =~= d);
        assert(t.subrange(t.len() - 5, t.len() as int) =~= "h ago"@);
    }
}

/// Phase-label law: the status table shows `ACTIVE` exactly for a route with
/// 14 or more days of data; every other route shows a `LEARNING` label.
pub proof fn law_phase_label_active_after_fourteen_days(days_of_data: u32)
    ensures
        (phase_label_text(days_of_data) == "ACTIVE"@) <==> days_of_data >= 14,
        days_of_data < 14 ==> phase_label_text(days_of_data).subrange(0, 8) == "LEARNING"@,
{
    reveal_strlit("ACTIVE");
    reveal_strlit("LEARNING (day ");
    reveal_strlit("LEARNING");
    if days_of_data < 14 {
        let t = phase_label_text(days_of_data);
        assert(t[0] == 'L');
        assert(t.subrange(0, 8) =~= "LEARNING"@);
        assert(t != "ACTIVE"@) by {
            assert("ACTIVE"@[0] == 'A');
        }
    }
}

} // verus!
