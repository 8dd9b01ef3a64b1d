//! Deal classification and the choice of baseline a price is judged against.
//!
//! A price is a deal when it lies below the standard-deviation threshold
//! (`mean - k * stddev`) or below the p25 threshold (`p25 * factor`), and an
//! exceptional deal when it lies below both. The two comparisons are floating
//! point and are made by the application; this module turns their outcome into
//! a verdict and decides which route status a price is compared with.

use vstd::prelude::*;

use crate::baseline::RouteStatus;
use crate::text::text_eq;

verus! {

/// How good a detected deal is.
#[derive(Debug, Clone, Copy, PartialEq, Eq, Structural)]
pub enum DealSeverity {
    GoodDeal,
    ExceptionalDeal,
}

pub open spec fn severity_name(s: DealSeverity) -> Seq<char> {
    match s {
        DealSeverity::GoodDeal => "good_deal"@,
        DealSeverity::ExceptionalDeal => "exceptional_deal"@,
    }
}

impl DealSeverity {
    /// The text name of the severity (`good_deal`, `exceptional_deal`).
    pub fn as_str(&self) -> (r: &'static str)
        ensures
            r@ == severity_name(*self),
    {
        match self {
            DealSeverity::GoodDeal => "good_deal",
            DealSeverity::ExceptionalDeal => "exceptional_deal",
        }
    }
}

/// The verdict on a price, given whether it lies below the
/// standard-deviation threshold and whether it lies below the p25 threshold.
pub open spec fn spec_classify(below_stddev: bool, below_p25: bool) -> Option<DealSeverity> {
    if below_stddev && below_p25 {
        Some(DealSeverity::ExceptionalDeal)
    } else if below_stddev || below_p25 {
        Some(DealSeverity::GoodDeal)
    } else {
        None
    }
}

/// Classifies a price from the outcome of its two threshold comparisons:
/// no deal when it is below neither, a good deal when below one, an
/// exceptional deal when below both.
pub fn classify(below_stddev: bool, below_p25: bool) -> (r: Option<DealSeverity>)
    ensures
        r == spec_classify(below_stddev, below_p25),
        r is Some <==> (below_stddev || below_p25),
        r == Some(DealSeverity::ExceptionalDeal) <==> (below_stddev && below_p25),
{
    if !below_stddev && !below_p25 {
        return None;
    }
    if below_stddev && below_p25 {
        Some(DealSeverity::ExceptionalDeal)
    } else {
        Some(DealSeverity::GoodDeal)
    }
}

/// Lower-price law: for prices compared against fixed thresholds, a lower
/// price is still a deal when a higher one is, and still exceptional when the
/// higher one is. (Stated over integers; it holds for any totally ordered
/// prices, such as floating-point prices that are not NaN.)
pub proof fn law_lower_price_keeps_deal(price: int, lower: int, stddev_threshold: int, p25_threshold: int)
    requires
        lower <= price,
    ensures
        spec_classify(price < stddev_threshold, price < p25_threshold) is Some ==> spec_classify(
            lower < stddev_threshold,
            lower < p25_threshold,
        ) is Some,
        spec_classify(price < stddev_threshold, price < p25_threshold) == Some(
            DealSeverity::ExceptionalDeal,
        ) ==> spec_classify(lower < stddev_threshold, lower < p25_threshold) == Some(
            DealSeverity::ExceptionalDeal,
        ),
{
}

pub open spec fn status_is_for<B>(s: RouteStatus<B>, origin: Seq<char>, destination: Seq<char>) -> bool {
    s.spec_origin() == origin && s.spec_destination() == destination
}

/// `i` is the first status in `statuses` for the route `origin`-`destination`.
pub open spec fn is_first_status_for<B>(
    statuses: Seq<RouteStatus<B>>,
    origin: Seq<char>,
    destination: Seq<char>,
    i: int,
) -> bool {
    &&& 0 <= i < statuses.len()
    &&& status_is_for(statuses[i], origin, destination)
    &&& forall|j: int| 0 <= j < i ==> !status_is_for(#[trigger] statuses[j], origin, destination)
}

/// The baseline a price on `origin`-`destination` is judged against: that of
/// the first status for the route, when that route is ready. A route still
/// learning, or with no status, gives `None`, and its prices are skipped.
pub fn ready_baseline_for<'a, B>(
    statuses: &'a [RouteStatus<B>],
    origin: &str,
    destination: &str,
) -> (r: Option<&'a B>)
    ensures
        match r {
            Some(b) => exists|i: int|
                is_first_status_for(statuses@, origin@, destination@, i)
                    && #[trigger] statuses@[i].spec_baseline() == Some(*b),
            None => forall|i: int|
                is_first_status_for(statuses@, origin@, destination@, i) ==> !(
                #[trigger] statuses@[i] is Ready),
        },
{
    let mut i: usize = 0;
    while i < statuses.len()
        invariant
            i <= statuses@.len(),
            forall|j: int| 0 <= j < i ==> !status_is_for(#[trigger] statuses@[j], origin@, destination@),
        decreases statuses@.len() - i,
    {
        let s = &statuses[i];
        if text_eq(s.origin(), origin) && text_eq(s.destination(), destination) {
            let r = s.baseline();
            proof {
                assert(is_first_status_for(statuses@, origin@, destination@, i as int));
                assert forall|k: int| is_first_status_for(statuses@, origin@, destination@, k) implies k == i by {
                    if k < i {
                    } else if k > i {
                        assert(!status_is_for(statuses@[i as int], origin@, destination@));
                    }
                }
            }
            return r;
        }
        i = i + 1;
    }
    None
}

/// Learning-phase law: a price is only ever judged against a ready route's
/// baseline; a route whose first status is still learning yields none.
pub proof fn law_learning_routes_give_no_baseline<B>(
    statuses: Seq<RouteStatus<B>>,
    origin: Seq<char>,
    destination: Seq<char>,
    i: int,
)
    requires
        is_first_status_for(statuses, origin, destination, i),
        statuses[i] is Learning,
    ensures
        statuses[i].spec_baseline() is None,
        forall|k: int| is_first_status_for(statuses, origin, destination, k) ==> k == i,
{
    assert forall|k: int| is_first_status_for(statuses, origin, destination, k) implies k == i by {
        if k < i {
            assert(!status_is_for(statuses[k], origin, destination));
        } else if k > i {
            assert(!status_is_for(statuses[i], origin, destination));
        }
    }
}

} // verus!
