//! Discord alert delivery: the retry rule for webhook responses and the text
//! of the alert embed.
//!
//! Delivery alternates network calls and decisions, so the decisions stand
//! here as a step function: given the attempt number and the HTTP status the
//! webhook answered, it says what to do next. The application performs the
//! request, the waiting and the recording of the alert.

use vstd::prelude::*;
use vstd::arithmetic::power2::{pow2, lemma2_to64};

use crate::detector::DealSeverity;

verus! {

/// Webhook requests made for one alert before giving up.
pub const MAX_DELIVERY_ATTEMPTS: u8 = 3;

/// Embed colour of a good deal (#2ECC71, green).
pub const COLOR_GOOD_DEAL: u32 = 3_066_993;

/// Embed colour of an exceptional deal (#F1C40F, gold).
pub const COLOR_EXCEPTIONAL_DEAL: u32 = 15_844_367;

/// What to do after the webhook answered.
#[derive(Debug, Clone, Copy, PartialEq, Eq, Structural)]
pub enum DeliveryAction {
    /// The alert was delivered; record it in the database when `record_alert`.
    Delivered { record_alert: bool },
    /// The webhook rejected the payload: fail with this status, without retrying
    /// and without recording the alert.
    Rejected { status: u16 },
    /// A server error: wait this many seconds, then send again.
    RetryAfter { wait_secs: u64 },
    /// A server error on the last attempt: wait this many seconds, then fail
    /// with this status.
    GiveUpAfter { wait_secs: u64, status: u16 },
}

/// A 2xx status: Discord accepted the alert (204 No Content among them).
pub open spec fn is_success_status(status: u16) -> bool {
    200 <= status <= 299
}

/// A 5xx status (or above): worth retrying.
pub open spec fn is_server_error_status(status: u16) -> bool {
    status >= 500
}

/// Seconds to wait after a server error on attempt `attempt`: 2, 4, 8.
pub open spec fn backoff_secs(attempt: u8) -> nat {
    pow2(attempt as nat)
}

pub open spec fn spec_next_delivery_action(attempt: u8, status: u16, is_test: bool) -> DeliveryAction {
    if is_success_status(status) {
        DeliveryAction::Delivered { record_alert: !is_test }
    } else if is_server_error_status(status) {
        if attempt < MAX_DELIVERY_ATTEMPTS {
            DeliveryAction::RetryAfter { wait_secs: backoff_secs(attempt) as u64 }
        } else {
            DeliveryAction::GiveUpAfter { wait_secs: backoff_secs(attempt) as u64, status }
        }
    } else {
        DeliveryAction::Rejected { status }
    }
}

/// The next step of delivering an alert, after attempt `attempt` (1 to 3)
/// was answered with `status`. Test alerts are delivered but never recorded.
pub fn next_delivery_action(attempt: u8, status: u16, is_test: bool) -> (r: DeliveryAction)
    requires
        1 <= attempt <= MAX_DELIVERY_ATTEMPTS,
    ensures
        r == spec_next_delivery_action(attempt, status, is_test),
{
    proof {
        lemma2_to64();
    }
    let wait: u64 = if attempt == 1 {
        2
    } else if attempt == 2 {
        4
    } else {
        8
    };
    if 200 <= status && status <= 299 {
        DeliveryAction::Delivered { record_alert: !is_test }
    } else if status >= 500 {
        if attempt < MAX_DELIVERY_ATTEMPTS {
            DeliveryAction::RetryAfter { wait_secs: wait }
        } else {
            DeliveryAction::GiveUpAfter { wait_secs: wait, status }
        }
    } else {
        DeliveryAction::Rejected { status }
    }
}

/// The number of webhook requests made for one alert when the webhook
/// answers with `responses` in turn, starting at attempt `attempt`.
pub open spec fn requests_made(responses: Seq<u16>, attempt: u8, is_test: bool) -> nat
    decreases responses.len(),
{
    if responses.len() == 0 || attempt < 1 || attempt > MAX_DELIVERY_ATTEMPTS {
        0
    } else {
        match spec_next_delivery_action(attempt, responses[0], is_test) {
            DeliveryAction::RetryAfter { .. } => 1 + requests_made(
                responses.drop_first(),
                (attempt + 1) as u8,
                is_test,
            ),
            _ => 1,
        }
    }
}

/// Retry law: however the webhook answers, one alert costs at most
/// [`MAX_DELIVERY_ATTEMPTS`] requests, counting from the first attempt.
pub proof fn law_bounded_delivery_attempts(responses: Seq<u16>, attempt: u8, is_test: bool)
    requires
        1 <= attempt <= MAX_DELIVERY_ATTEMPTS,
    ensures
        requests_made(responses, attempt, is_test) <= MAX_DELIVERY_ATTEMPTS - attempt + 1,
    decreases responses.len(),
{
    if responses.len() > 0 && attempt < MAX_DELIVERY_ATTEMPTS {
        law_bounded_delivery_attempts(responses.drop_first(), (attempt + 1) as u8, is_test);
    }
}

/// How many answers in a row, from the first, are server errors.
pub open spec fn leading_server_errors(responses: Seq<u16>) -> nat
    decreases responses.len(),
{
    if responses.len() > 0 && is_server_error_status(responses[0]) {
        1 + leading_server_errors(responses.drop_first())
    } else {
        0
    }
}

pub open spec fn min_nat(a: nat, b: nat) -> nat {
    if a <= b {
        a
    } else {
        b
    }
}

/// Exact retry law: from attempt `attempt`, one request is made per answer
/// until an answer that is not a server error, or until the last attempt,
/// and never more requests than there are answers. From the first attempt,
/// against a webhook that answers at least three times, that is
/// min(3, leading server errors + 1).
pub proof fn law_exact_delivery_requests(responses: Seq<u16>, attempt: u8, is_test: bool)
    requires
        1 <= attempt <= MAX_DELIVERY_ATTEMPTS,
    ensures
        requests_made(responses, attempt, is_test) == min_nat(
            responses.len(),
            min_nat((MAX_DELIVERY_ATTEMPTS - attempt + 1) as nat, leading_server_errors(responses) + 1),
        ),
        attempt == 1 && responses.len() >= 3 ==> requests_made(responses, attempt, is_test) == min_nat(
            3,
            leading_server_errors(responses) + 1,
        ),
    decreases responses.len(),
{
    if responses.len() > 0 && attempt < MAX_DELIVERY_ATTEMPTS {
        law_exact_delivery_requests(responses.drop_first(), (attempt + 1) as u8, is_test);
    }
}

/// Delivery-outcome law: an alert counts as delivered only on a 2xx answer,
/// and then it is recorded exactly when it is not a test; a server error
/// (5xx or above) is retried after 2, then 4 seconds on the first two attempts
/// and gives up after 8 seconds with that status on the third; any other
/// answer is rejected with its status.
pub proof fn law_delivery_outcomes(attempt: u8, status: u16, is_test: bool)
    requires
        1 <= attempt <= 3,
    ensures
        (spec_next_delivery_action(attempt, status, is_test) is Delivered) <==> (200 <= status
            <= 299),
        200 <= status <= 299 ==> spec_next_delivery_action(attempt, status, is_test)
            == (DeliveryAction::Delivered { record_alert: !is_test }),
        status >= 500 && attempt == 1 ==> spec_next_delivery_action(attempt, status, is_test)
            == (DeliveryAction::RetryAfter { wait_secs: 2 }),
        status >= 500 && attempt == 2 ==> spec_next_delivery_action(attempt, status, is_test)
            == (DeliveryAction::RetryAfter { wait_secs: 4 }),
        status >= 500 && attempt == 3 ==> spec_next_delivery_action(attempt, status, is_test)
            == (DeliveryAction::GiveUpAfter { wait_secs: 8, status }),
        (status < 200 || 300 <= status < 500) ==> spec_next_delivery_action(
            attempt,
            status,
            is_test,
        ) == (DeliveryAction::Rejected { status }),
{
    lemma2_to64();
}

/// Recording law: an alert is recorded only when the webhook accepted it and
/// it is not a test; rejections (4xx and the like) are never retried.
pub proof fn law_record_only_delivered_alerts(attempt: u8, status: u16, is_test: bool)
    ensures
        spec_next_delivery_action(attempt, status, is_test) == (DeliveryAction::Delivered {
            record_alert: true,
        }) <==> is_success_status(status) && !is_test,
        !is_success_status(status) && !is_server_error_status(status) ==> spec_next_delivery_action(
            attempt,
            status,
            is_test,
        ) == (DeliveryAction::Rejected { status }),
{
}

/// The colour of the alert embed for a deal of this severity.
pub fn embed_color(severity: DealSeverity) -> (c: u32)
    ensures
        c == match severity {
            DealSeverity::GoodDeal => COLOR_GOOD_DEAL,
            DealSeverity::ExceptionalDeal => COLOR_EXCEPTIONAL_DEAL,
        },
{
    match severity {
        DealSeverity::GoodDeal => COLOR_GOOD_DEAL,
        DealSeverity::ExceptionalDeal => COLOR_EXCEPTIONAL_DEAL,
    }
}

pub open spec fn embed_title_text(origin: Seq<char>, destination: Seq<char>, is_test: bool) -> Seq<char> {
    (if is_test {
        "[TEST] "@
    } else {
        ""@
    }) + "\u{2708}\u{fe0f} Flight Deal: "@ + origin + " \u{2192} "@ + destination
}

/// The title of the alert embed: `✈️ Flight Deal: LAX → NRT`, marked
/// `[TEST] ` in front for a test alert.
pub fn embed_title(origin: &str, destination: &str, is_test: bool) -> (t: String)
    ensures
        t@ == embed_title_text(origin@, destination@, is_test),
{
    let mut t = if is_test {
        "[TEST] ".to_owned()
    } else {
        "".to_owned()
    };
    t.append("\u{2708}\u{fe0f} Flight Deal: ");
    t.append(origin);
    t.append(" \u{2192} ");
    t.append(destination);
    t
}

pub open spec fn embed_description_text(booking_url: Option<Seq<char>>) -> Seq<char> {
    match booking_url {
        Some(url) => "[Book now]("@ + url + ")"@,
        None => "Search on Google Flights"@,
    }
}

/// The description of the alert embed: a booking link when the deal has one.
pub fn embed_description(booking_url: Option<&str>) -> (t: String)
    ensures
        t@ == embed_description_text(
            match booking_url {
                Some(u) => Some(u@),
                None => None,
            },
        ),
{
    match booking_url {
        Some(url) => {
            let mut t = "[Book now](".to_owned();
            t.append(url);
            t.append(")");
            t
        },
        None => "Search on Google Flights".to_owned(),
    }
}

} // verus!
