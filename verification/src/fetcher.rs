//! What a fetch cycle asks the price sources for, and what it keeps of their
//! answers. The requests themselves are network I/O made by the application.

use vstd::prelude::*;

use crate::dates::{compact_date_text, iso_date_text, return_date, Date, MAX_DAY, TRIP_LENGTH_DAYS};
use crate::source::Source;
use crate::text::text_eq;

verus! {

/// One price query: a destination and a weekend trip.
#[derive(Debug, Clone)]
pub struct FetchQuery {
    pub destination: String,
    pub departure: Date,
    pub return_date: Date,
}

pub open spec fn query_view(q: FetchQuery) -> (Seq<char>, int, int) {
    (q.destination@, q.departure@, q.return_date@)
}

/// The queries for one destination: each departure day with its return.
pub open spec fn plan_row(destination: Seq<char>, days: Seq<int>) -> Seq<(Seq<char>, int, int)> {
    days.map_values(|d: int| (destination, d, d + TRIP_LENGTH_DAYS))
}

/// The queries of a route: destination by destination, each over all days.
pub open spec fn plan_spec(destinations: Seq<Seq<char>>, days: Seq<int>) -> Seq<(Seq<char>, int, int)>
    decreases destinations.len(),
{
    if destinations.len() == 0 {
        Seq::empty()
    } else {
        plan_spec(destinations.drop_last(), days) + plan_row(destinations.last(), days)
    }
}

/// The price queries for a route: for each destination in turn, every
/// departure date with its return date three days later.
pub fn fetch_plan(destinations: &[String], departures: &[Date]) -> (r: Vec<FetchQuery>)
    requires
        forall|j: int| 0 <= j < departures@.len() ==> #[trigger] departures@[j]@ + TRIP_LENGTH_DAYS <= MAX_DAY,
    ensures
        r@.map_values(|q: FetchQuery| query_view(q)) == plan_spec(
            destinations@.map_values(|s: String| s@),
            departures@.map_values(|d: Date| d@),
        ),
{
    let ghost dests = destinations@.map_values(|s: String| s@);
    let ghost days = departures@.map_values(|d: Date| d@);
    let mut plan: Vec<FetchQuery> = Vec::new();
    let mut i: usize = 0;
    while i < destinations.len()
        invariant
            i <= destinations@.len(),
            dests == destinations@.map_values(|s: String| s@),
            days == departures@.map_values(|d: Date| d@),
            forall|j: int| 0 <= j < departures@.len() ==> #[trigger] departures@[j]@ + TRIP_LENGTH_DAYS <= MAX_DAY,
            plan@.map_values(|q: FetchQuery| query_view(q)) == plan_spec(dests.take(i as int), days),
        decreases destinations@.len() - i,
    {
        let ghost before = plan@.map_values(|q: FetchQuery| query_view(q));
        let mut j: usize = 0;
        while j < departures.len()
            invariant
                i < destinations@.len(),
                j <= departures@.len(),
                dests == destinations@.map_values(|s: String| s@),
                days == departures@.map_values(|d: Date| d@),
                forall|k: int| 0 <= k < departures@.len() ==> #[trigger] departures@[k]@ + TRIP_LENGTH_DAYS <= MAX_DAY,
                plan@.map_values(|q: FetchQuery| query_view(q)) == before + plan_row(
                    dests[i as int],
                    days.take(j as int),
                ),
            decreases departures@.len() - j,
        {
            let departure = departures[j];
            let q = FetchQuery {
                destination: destinations[i].clone(),
                departure,
                return_date: return_date(departure),
            };
            let ghost old_plan = plan@;
            proof {
                assert(query_view(q) == (dests[i as int], days[j as int], days[j as int] + TRIP_LENGTH_DAYS));
            }
            plan.push(q);
            proof {
                assert(plan@ == old_plan.push(q));
                assert(days.take(j + 1) =~= days.take(j as int).push(days[j as int]));
                assert(plan@.map_values(|q: FetchQuery| query_view(q)) =~= old_plan.map_values(
                    |q: FetchQuery| query_view(q),
                ).push(query_view(q)));
                assert(plan@.map_values(|q: FetchQuery| query_view(q)) =~= before + plan_row(
                    dests[i as int],
                    days.take(j + 1),
                ));
            }
            j = j + 1;
        }
        proof {
            assert(days.take(departures@.len() as int) =~= days);
            assert(dests.take(i + 1).drop_last() =~= dests.take(i as int));
        }
        i = i + 1;
    }
    proof {
        assert(dests.take(destinations@.len() as int) =~= dests);
    }
    plan
}

/// Plan-size law: a route's plan holds one query per destination and date.
pub proof fn law_plan_size(destinations: Seq<Seq<char>>, days: Seq<int>)
    ensures
        plan_spec(destinations, days).len() == destinations.len() * days.len(),
    decreases destinations.len(),
{
    if destinations.len() > 0 {
        law_plan_size(destinations.drop_last(), days);
        assert(destinations.len() * days.len() == (destinations.len() - 1) * days.len() + days.len())
            by (nonlinear_arith);
    }
}

/// Every-success law: appending a successful answer appends its value to the
/// kept results, appending a failure keeps them as they were, and no answers
/// keep nothing. So every `Ok` is kept, in order, and nothing else.
pub proof fn law_successes_keep_every_ok<T, E>(outcomes: Seq<Result<T, E>>, v: T, e: E)
    ensures
        successes_of(Seq::<Result<T, E>>::empty()) == Seq::<T>::empty(),
        successes_of(outcomes.push(Ok(v))) == successes_of(outcomes).push(v),
        successes_of(outcomes.push(Err(e))) == successes_of(outcomes),
    decreases outcomes.len(),
{
    if outcomes.len() > 0 {
        law_successes_keep_every_ok(outcomes.drop_first(), v, e);
        assert(outcomes.push(Ok(v)).drop_first() =~= outcomes.drop_first().push(Ok(v)));
        assert(outcomes.push(Err(e)).drop_first() =~= outcomes.drop_first().push(Err(e)));
        match outcomes[0] {
            Ok(w) => {
                assert(successes_of(outcomes.push(Ok(v))) =~= seq![w] + successes_of(
                    outcomes.drop_first(),
                ).push(v));
                assert(successes_of(outcomes.push(Ok(v))) =~= successes_of(outcomes).push(v));
            },
            Err(_) => {},
        }
    } else {
        assert(outcomes.push(Ok(v)).drop_first() =~= Seq::<Result<T, E>>::empty());
        assert(outcomes.push(Err(e)).drop_first() =~= Seq::<Result<T, E>>::empty());
        let one = outcomes.push(Ok(v));
        assert(one.len() == 1 && one[0] == Ok::<T, E>(v));
        assert(successes_of(one.drop_first()) == Seq::<T>::empty());
        assert(successes_of(one) =~= seq![v]);
        assert(successes_of(outcomes) == Seq::<T>::empty());
    }
}

/// Plan-order law: the query at position `i * days + j` of a route's plan is
/// destination `i` on departure day `j`, returning three days later; so the
/// plan asks every destination about every date, destination by destination.
pub proof fn law_plan_query_at(destinations: Seq<Seq<char>>, days: Seq<int>, i: int, j: int)
    requires
        0 <= i < destinations.len(),
        0 <= j < days.len(),
    ensures
        0 <= i * days.len() + j < plan_spec(destinations, days).len(),
        plan_spec(destinations, days)[i * days.len() + j] == (destinations[i], days[j], days[j] + 3),
    decreases destinations.len(),
{
    let n = destinations.len() as int;
    let k = days.len() as int;
    law_plan_size(destinations, days);
    law_plan_size(destinations.drop_last(), days);
    assert(n * k == (n - 1) * k + k) by (nonlinear_arith);
    assert(0 <= i * k) by (nonlinear_arith)
        requires
            i >= 0,
            k >= 0,
    ;
    if i == n - 1 {
        assert(plan_spec(destinations, days)[i * k + j] == plan_row(destinations.last(), days)[j]);
    } else {
        assert(i * k + j < (n - 1) * k) by (nonlinear_arith)
            requires
                0 <= i < n - 1,
                0 <= j < k,
        ;
        law_plan_query_at(destinations.drop_last(), days, i, j);
        assert(destinations.drop_last()[i] == destinations[i]);
    }
    assert(i * k + j < n * k) by (nonlinear_arith)
        requires
            0 <= i < n,
            0 <= j < k,
    ;
}

/// The successful answers among `outcomes`, in order.
pub open spec fn successes_of<T, E>(outcomes: Seq<Result<T, E>>) -> Seq<T>
    decreases outcomes.len(),
{
    if outcomes.len() == 0 {
        Seq::empty()
    } else {
        let rest = successes_of(outcomes.drop_first());
        match outcomes[0] {
            Ok(v) => seq![v] + rest,
            Err(_) => rest,
        }
    }
}

/// The prices that the sources returned, in the order the sources were
/// asked; failed sources contribute nothing.
pub fn successes<T, E>(outcomes: Vec<Result<T, E>>) -> (r: Vec<T>)
    ensures
        r@ == successes_of(outcomes@),
{
    let mut rest = outcomes;
    let mut kept: Vec<T> = Vec::new();
    let ghost all = rest@;
    while rest.len() > 0
        invariant
            kept@ + successes_of(rest@) == successes_of(all),
        decreases rest@.len(),
    {
        let ghost before = rest@;
        let first = rest.remove(0);
        proof {
            assert(rest@ =~= before.drop_first());
        }
        match first {
            Ok(v) => {
                kept.push(v);
                proof {
                    assert(kept@ + successes_of(rest@) =~= kept@.drop_last() + (seq![v] + successes_of(rest@)));
                }
            },
            Err(_) => {},
        }
    }
    proof {
        assert(kept@ + successes_of(rest@) =~= kept@);
    }
    kept
}

/// The base fare, in dollars, that the scraping stand-in quotes from an
/// origin before a source's own adjustment.
pub open spec fn stub_fare_of(origin: Seq<char>) -> u32 {
    if origin == "LAX"@ {
        850
    } else if origin == "SFO"@ {
        820
    } else if origin == "JFK"@ {
        950
    } else if origin == "ORD"@ {
        920
    } else if origin == "SEA"@ {
        800
    } else if origin == "BOS"@ {
        980
    } else if origin == "DFW"@ {
        890
    } else if origin == "MIA"@ {
        1020
    } else {
        900
    }
}

/// The stand-in base fare for an origin: a fixed table, 900 for others.
pub fn stub_base_fare(origin: &str) -> (r: u32)
    ensures
        r == stub_fare_of(origin@),
{
    if text_eq(origin, "LAX") {
        850
    } else if text_eq(origin, "SFO") {
        820
    } else if text_eq(origin, "JFK") {
        950
    } else if text_eq(origin, "ORD") {
        920
    } else if text_eq(origin, "SEA") {
        800
    } else if text_eq(origin, "BOS") {
        980
    } else if text_eq(origin, "DFW") {
        890
    } else if text_eq(origin, "MIA") {
        1020
    } else {
        900
    }
}

pub open spec fn booking_url_text(source: Source, origin: Seq<char>, destination: Seq<char>, departure: int) -> Seq<char> {
    match source {
        Source::GoogleFlights => "https://flights.google.com/search?q=flights+"@ + origin + "+to+"@
            + destination + "+"@ + iso_date_text(departure),
        Source::Kayak => "https://www.kayak.com/flights/"@ + origin + "-"@ + destination + "/"@
            + iso_date_text(departure) + "/"@,
        Source::Skyscanner => "https://www.skyscanner.com/transport/flights/"@ + origin + "/"@
            + destination + "/"@ + compact_date_text(departure) + "/"@,
    }
}

/// The booking link a source's search page has for a trip. (chrono documents
/// a date's `Display` as its `%Y-%m-%d` format, which the Kayak link uses.)
pub fn booking_url(source: Source, origin: &str, destination: &str, departure: Date) -> (r: String)
    ensures
        r@ == booking_url_text(source, origin@, destination@, departure@),
{
    match source {
        Source::GoogleFlights => {
            let mut u = "https://flights.google.com/search?q=flights+".to_owned();
            u.append(origin);
            u.append("+to+");
            u.append(destination);
            u.append("+");
            let d = departure.iso_text();
            u.append(d.as_str());
            u
        },
        Source::Kayak => {
            let mut u = "https://www.kayak.com/flights/".to_owned();
            u.append(origin);
            u.append("-");
            u.append(destination);
            u.append("/");
            let d = departure.iso_text();
            u.append(d.as_str());
            u.append("/");
            u
        },
        Source::Skyscanner => {
            let mut u = "https://www.skyscanner.com/transport/flights/".to_owned();
            u.append(origin);
            u.append("/");
            u.append(destination);
            u.append("/");
            let d = departure.compact_text();
            u.append(d.as_str());
            u.append("/");
            u
        },
    }
}

} // verus!
