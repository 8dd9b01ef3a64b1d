//! Route learning phases and the order statistics of a route's baseline.
//!
//! A route stays in its learning phase until it has prices from
//! [`LEARNING_DAYS_REQUIRED`] distinct days. The statistics themselves
//! (mean, standard deviation) are floating point and are computed by the
//! application; this module decides the phase and picks the percentiles.

use vstd::prelude::*;

verus! {

/// Days of price data a route needs before its baseline is trusted.
pub const LEARNING_DAYS_REQUIRED: i64 = 14;

/// Where a route stands: still learning, or ready with a baseline `B`.
#[derive(Debug, Clone)]
pub enum RouteStatus<B> {
    Learning { origin: String, destination: String, days_collected: i64, days_remaining: i64 },
    Ready { origin: String, destination: String, baseline: B },
}

impl<B> RouteStatus<B> {
    pub open spec fn spec_origin(&self) -> Seq<char> {
        match self {
            RouteStatus::Learning { origin, .. } => origin@,
            RouteStatus::Ready { origin, .. } => origin@,
        }
    }

    pub open spec fn spec_destination(&self) -> Seq<char> {
        match self {
            RouteStatus::Learning { destination, .. } => destination@,
            RouteStatus::Ready { destination, .. } => destination@,
        }
    }

    pub open spec fn spec_baseline(&self) -> Option<B> {
        match self {
            RouteStatus::Ready { baseline, .. } => Some(*baseline),
            RouteStatus::Learning { .. } => None,
        }
    }

    /// The route's origin airport.
    pub fn origin(&self) -> (r: &str)
        ensures
            r@ == self.spec_origin(),
    {
        match self {
            RouteStatus::Learning { origin, .. } => origin.as_str(),
            RouteStatus::Ready { origin, .. } => origin.as_str(),
        }
    }

    /// The route's destination airport.
    pub fn destination(&self) -> (r: &str)
        ensures
            r@ == self.spec_destination(),
    {
        match self {
            RouteStatus::Learning { destination, .. } => destination.as_str(),
            RouteStatus::Ready { destination, .. } => destination.as_str(),
        }
    }

    /// Whether the route has left its learning phase.
    pub fn is_ready(&self) -> (r: bool)
        ensures
            r == (self is Ready),
    {
        match self {
            RouteStatus::Ready { .. } => true,
            RouteStatus::Learning { .. } => false,
        }
    }

    /// The baseline of a ready route.
    pub fn baseline(&self) -> (r: Option<&B>)
        ensures
            match self.spec_baseline() {
                Some(b) => r matches Some(x) && *x == b,
                None => r is None,
            },
    {
        match self {
            RouteStatus::Ready { baseline, .. } => Some(baseline),
            RouteStatus::Learning { .. } => None,
        }
    }
}

/// The learning status a route with `days_of_data` days of prices has, if it
/// has fewer than [`LEARNING_DAYS_REQUIRED`]: the days collected and the days
/// still to go. `None` means the route has enough data for a baseline.
pub fn learning_status<B>(origin: &str, destination: &str, days_of_data: u32) -> (r: Option<
    RouteStatus<B>,
>)
    ensures
        r is Some <==> days_of_data < LEARNING_DAYS_REQUIRED,
        r matches Some(s) ==> s matches RouteStatus::Learning {
            origin: o,
            destination: d,
            days_collected,
            days_remaining,
        } && o@ == origin@ && d@ == destination@ && days_collected == days_of_data
            && days_remaining == LEARNING_DAYS_REQUIRED - days_of_data,
{
    let days: i64 = days_of_data as i64;
    if days < LEARNING_DAYS_REQUIRED {
        Some(
            RouteStatus::Learning {
                origin: origin.to_owned(),
                destination: destination.to_owned(),
                days_collected: days,
                days_remaining: LEARNING_DAYS_REQUIRED - days,
            },
        )
    } else {
        None
    }
}

/// The status of a route that has enough days of data but no stored prices:
/// it starts learning over, with nothing collected.
pub fn no_prices_status<B>(origin: &str, destination: &str) -> (r: RouteStatus<B>)
    ensures
        r matches RouteStatus::Learning { origin: o, destination: d, days_collected, days_remaining }
            && o@ == origin@ && d@ == destination@ && days_collected == 0 && days_remaining
            == LEARNING_DAYS_REQUIRED,
{
    RouteStatus::Learning {
        origin: origin.to_owned(),
        destination: destination.to_owned(),
        days_collected: 0,
        days_remaining: LEARNING_DAYS_REQUIRED,
    }
}

/// The phase shown for a route: learning until it has
/// [`LEARNING_DAYS_REQUIRED`] days of data, active after.
#[derive(Debug, Clone, Copy, PartialEq, Eq, Structural)]
pub enum RoutePhase {
    Learning,
    Active,
}

pub open spec fn spec_route_phase(days_of_data: u32) -> RoutePhase {
    if days_of_data >= LEARNING_DAYS_REQUIRED {
        RoutePhase::Active
    } else {
        RoutePhase::Learning
    }
}

impl RoutePhase {
    /// The phase of a route with `days_of_data` days of prices.
    pub fn for_days(days_of_data: u32) -> (r: RoutePhase)
        ensures
            r == spec_route_phase(days_of_data),
    {
        if days_of_data as i64 >= LEARNING_DAYS_REQUIRED {
            RoutePhase::Active
        } else {
            RoutePhase::Learning
        }
    }

    /// The phase's name in the REST API (`learning`, `active`).
    pub fn as_str(&self) -> (r: &'static str)
        ensures
            r@ == (match *self {
                RoutePhase::Learning => "learning"@,
                RoutePhase::Active => "active"@,
            }),
    {
        match self {
            RoutePhase::Learning => "learning",
            RoutePhase::Active => "active",
        }
    }
}

/// Phase law: the phase that the status views show agrees with the baseline
/// computation: a route shown as learning is exactly one that
/// [`learning_status`] keeps learning.
pub proof fn law_phase_agrees_with_learning_status(days_of_data: u32)
    ensures
        spec_route_phase(days_of_data) == RoutePhase::Learning <==> days_of_data
            < LEARNING_DAYS_REQUIRED,
{
}

/// Learning law: a learning route has collected and still needs days that
/// add up to [`LEARNING_DAYS_REQUIRED`].
pub proof fn law_learning_days_add_up(days_collected: i64, days_remaining: i64, days_of_data: u32)
    requires
        days_of_data < LEARNING_DAYS_REQUIRED,
        days_collected == days_of_data,
        days_remaining == LEARNING_DAYS_REQUIRED - days_of_data,
    ensures
        days_collected + days_remaining == LEARNING_DAYS_REQUIRED,
        0 < days_remaining <= LEARNING_DAYS_REQUIRED,
{
}

/// Position of the `pct`-th percentile in a sorted list of `len` values:
/// `pct / 100 * (len - 1)` rounded to the nearest index (halves up), capped at
/// the last index.
pub open spec fn percentile_position(len: int, pct: int) -> int {
    let rounded = (2 * pct * (len - 1) + 100) / 200;
    if rounded < len - 1 {
        rounded
    } else {
        len - 1
    }
}

/// Index of the `pct`-th percentile (0 to 100) in a sorted list of `len` values.
pub fn percentile_index(len: usize, pct: u32) -> (i: usize)
    requires
        len > 0,
        pct <= 100,
    ensures
        i as int == percentile_position(len as int, pct as int),
        i < len,
        -100 < 200 * (i as int) - 2 * (pct as int) * (len as int - 1) <= 100,
{
    proof {
        law_percentile_is_nearest_index(len as int, pct as int);
    }
    let last: u128 = (len - 1) as u128;
    let p: u128 = pct as u128;
    assert(2 * p * last <= 200 * last) by (nonlinear_arith)
        requires
            p <= 100,
    ;
    let twice: u128 = 2 * p * last;
    let rounded: u128 = (twice + 100) / 200;
    if rounded < last {
        rounded as usize
    } else {
        len - 1
    }
}

/// The `pct`-th percentile of sorted values: the value at
/// [`percentile_index`], or `None` for no values.
pub fn percentile<T: Copy>(sorted: &[T], pct: u32) -> (r: Option<T>)
    requires
        pct <= 100,
    ensures
        sorted@.len() == 0 ==> r is None,
        sorted@.len() > 0 ==> r == Some(
            sorted@[percentile_position(sorted@.len() as int, pct as int)],
        ),
{
    if sorted.len() == 0 {
        None
    } else {
        let i = percentile_index(sorted.len(), pct);
        Some(sorted[i])
    }
}

/// Nearest-index law: the `pct`-th percentile of `len` sorted values sits at
/// the index nearest to `pct / 100 * (len - 1)`, halves rounding up; so the
/// 100th percentile is the last value, the 0th the first, and the 50th the
/// middle one.
pub proof fn law_percentile_is_nearest_index(len: int, pct: int)
    requires
        len > 0,
        0 <= pct <= 100,
    ensures
        0 <= percentile_position(len, pct) < len,
        -100 < 200 * percentile_position(len, pct) - 2 * pct * (len - 1) <= 100,
        pct == 100 ==> percentile_position(len, pct) == len - 1,
        pct == 0 ==> percentile_position(len, pct) == 0,
{
    let x = 2 * pct * (len - 1);
    assert(0 <= x <= 200 * (len - 1)) by (nonlinear_arith)
        requires
            x == 2 * pct * (len - 1),
            0 <= pct <= 100,
            len > 0,
    ;
    let r = (x + 100) / 200;
    assert(x - 100 < 200 * r <= x + 100) by (nonlinear_arith)
        requires
            r == (x + 100) / 200,
            x >= 0,
    ;
    assert(r <= len - 1) by (nonlinear_arith)
        requires
            200 * r <= x + 100,
            x <= 200 * (len - 1),
    ;
    assert(r >= 0) by (nonlinear_arith)
        requires
            x - 100 < 200 * r,
            x >= 0,
    ;
    assert(percentile_position(len, pct) == r);
    if pct == 100 {
        assert(x == 200 * (len - 1)) by (nonlinear_arith)
            requires
                pct == 100,
                x == 2 * pct * (len - 1),
        ;
    }
    if pct == 0 {
        assert(x == 0) by (nonlinear_arith)
            requires
                pct == 0,
                x == 2 * pct * (len - 1),
        ;
    }
}

/// Percentile order law: a lower percentile never sits above a higher one, so
/// for sorted prices p10 <= p25 <= median.
pub proof fn law_percentile_positions_ordered(len: int, lo: int, hi: int)
    requires
        len > 0,
        0 <= lo <= hi <= 100,
    ensures
        0 <= percentile_position(len, lo) <= percentile_position(len, hi) < len,
{
    assert(2 * lo * (len - 1) <= 2 * hi * (len - 1)) by (nonlinear_arith)
        requires
            0 <= lo <= hi,
            len > 0,
    ;
    assert(0 <= 2 * lo * (len - 1)) by (nonlinear_arith)
        requires
            0 <= lo,
            len > 0,
    ;
    assert((2 * lo * (len - 1) + 100) / 200 <= (2 * hi * (len - 1) + 100) / 200) by (nonlinear_arith)
        requires
            2 * lo * (len - 1) <= 2 * hi * (len - 1),
    ;
}

} // verus!
