//! Route keys (`LAX-NRT`): building them, splitting them, and matching the
//! route filters that the command line and the REST API accept.

use vstd::prelude::*;

use crate::text::{eq_ignore_ascii_case, eq_ignoring_ascii_case, first_index_of, is_first_index_of, join3};

verus! {

/// The key of a route: origin, a dash, destination.
pub open spec fn route_key_text(origin: Seq<char>, destination: Seq<char>) -> Seq<char> {
    origin + seq!['-'] + destination
}

/// The key of a route, such as `LAX-NRT`.
pub fn route_key(origin: &str, destination: &str) -> (r: String)
    ensures
        r@ == route_key_text(origin@, destination@),
{
    proof {
        reveal_strlit("-");
    }
    join3(origin, "-", destination)
}

/// What `splitn(2, '-')` makes of a route key when it yields two parts:
/// the text before the first dash and the text after it.
pub open spec fn split_at_first_dash(route: Seq<char>, i: int) -> (Seq<char>, Seq<char>) {
    (route.subrange(0, i), route.subrange(i + 1, route.len() as int))
}

/// Splits `ORIGIN-DEST` at its first dash. A text without a dash is not a
/// route key and gives `None`; everything after the first dash, further
/// dashes included, is the destination.
pub fn split_route(route: &str) -> (r: Option<(String, String)>)
    ensures
        r is None <==> !route@.contains('-'),
        r matches Some(parts) ==> exists|i: int|
            is_first_index_of(route@, '-', i) && (parts.0@, parts.1@) == #[trigger] split_at_first_dash(
                route@,
                i,
            ),
{
    match first_index_of(route, '-') {
        None => None,
        Some(i) => {
            let n = route.unicode_len();
            let origin = route.substring_char(0, i).to_owned();
            let destination = route.substring_char(i + 1, n).to_owned();
            proof {
                assert((origin@, destination@) == split_at_first_dash(route@, i as int));
            }
            Some((origin, destination))
        },
    }
}

/// The part of a route filter before its first dash (all of it when it has
/// none), as `filter.split('-').next()` gives it.
pub open spec fn filter_origin_part(filter: Seq<char>) -> Seq<char> {
    if filter.contains('-') {
        let i = choose|i: int| is_first_index_of(filter, '-', i);
        filter.subrange(0, i)
    } else {
        filter
    }
}

/// Whether a route with this origin passes a backfill route filter: the
/// filter's origin part (before any dash) names the origin, ignoring ASCII case.
pub fn origin_matches_filter(origin: &str, filter: &str) -> (r: bool)
    ensures
        r == eq_ignoring_ascii_case(origin@, filter_origin_part(filter@)),
{
    match first_index_of(filter, '-') {
        None => eq_ignore_ascii_case(origin, filter),
        Some(i) => {
            let prefix = filter.substring_char(0, i);
            proof {
                let j = choose|j: int| is_first_index_of(filter@, '-', j);
                assert(j == i as int) by {
                    if j < i {
                        assert(filter@[j] != '-');
                    } else if j > i {
                        assert(filter@[i as int] != '-');
                    }
                }
            }
            eq_ignore_ascii_case(origin, prefix)
        },
    }
}

/// Whether an alert on `origin`-`destination` passes the optional route
/// filter of the deals listing: no filter passes everything; a filter passes
/// the route whose key it names, ignoring ASCII case.
pub fn route_matches_filter(origin: &str, destination: &str, filter: Option<&str>) -> (r: bool)
    ensures
        match filter {
            None => r,
            Some(f) => r == eq_ignoring_ascii_case(route_key_text(origin@, destination@), f@),
        },
{
    match filter {
        None => true,
        Some(f) => {
            let key = route_key(origin, destination);
            eq_ignore_ascii_case(key.as_str(), f)
        },
    }
}

/// Deal-filter law: with no filter every alert is listed, and a route's own
/// key, in any ASCII case, lists that route.
pub proof fn law_route_key_filter_lists_its_route(origin: Seq<char>, destination: Seq<char>)
    ensures
        eq_ignoring_ascii_case(route_key_text(origin, destination), route_key_text(origin, destination)),
{
}

/// Route-key law: a route key splits back into its origin and destination,
/// provided the origin holds no dash.
pub proof fn law_route_key_splits_back(origin: Seq<char>, destination: Seq<char>)
    requires
        !origin.contains('-'),
    ensures
        route_key_text(origin, destination).contains('-'),
        is_first_index_of(route_key_text(origin, destination), '-', origin.len() as int),
        split_at_first_dash(route_key_text(origin, destination), origin.len() as int) == (
            origin,
            destination,
        ),
{
    let key = route_key_text(origin, destination);
    assert(key[origin.len() as int] == '-');
    assert forall|j: int| 0 <= j < origin.len() implies key[j] != '-' by {
        assert(key[j] == origin[j]);
    }
    assert(key.subrange(0, origin.len() as int) =~= origin);
    assert(key.subrange(origin.len() as int + 1, key.len() as int) =~= destination);
}

/// Backfill-filter law: a route key given as the backfill filter selects the
/// route's origin (the origin holding no dash).
pub proof fn law_route_key_selects_its_origin(origin: Seq<char>, destination: Seq<char>)
    requires
        !origin.contains('-'),
    ensures
        eq_ignoring_ascii_case(origin, filter_origin_part(route_key_text(origin, destination))),
{
    law_route_key_splits_back(origin, destination);
    let key = route_key_text(origin, destination);
    let i = choose|i: int| is_first_index_of(key, '-', i);
    assert(i == origin.len()) by {
        if i < origin.len() {
            assert(key[i] == origin[i]);
            assert(origin.contains(key[i]));
        } else if i > origin.len() {
            assert(key[origin.len() as int] == '-');
        }
    }
    assert(key.subrange(0, i) =~= origin);
}

} // verus!
