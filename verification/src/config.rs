//! The monitored routes and the settings that the environment may override.

use vstd::prelude::*;

use crate::text::{decimal_digit, decimal_text};

verus! {

/// An origin airport and the destinations searched from it.
#[derive(Debug, Clone)]
pub struct Route {
    pub origin: String,
    pub destinations: Vec<String>,
}

/// The US origins the tracker monitors by default.
pub open spec fn default_origins() -> Seq<Seq<char>> {
    seq!["LAX"@, "SFO"@, "JFK"@, "ORD"@, "SEA"@, "BOS"@, "DFW"@, "MIA"@]
}

/// The Tokyo airports searched from every default origin: Narita and Haneda.
pub open spec fn default_destinations() -> Seq<Seq<char>> {
    seq!["NRT"@, "HND"@]
}

pub open spec fn texts(v: Seq<String>) -> Seq<Seq<char>> {
    v.map_values(|s: String| s@)
}

fn tokyo_route(origin: &str) -> (r: Route)
    ensures
        r.origin@ == origin@,
        texts(r.destinations@) == default_destinations(),
{
    let destinations = vec!["NRT".to_owned(), "HND".to_owned()];
    assert(texts(destinations@) =~= default_destinations());
    Route { origin: origin.to_owned(), destinations }
}

/// The eight default routes: LAX, SFO, JFK, ORD, SEA, BOS, DFW and MIA, each
/// to NRT and HND.
pub fn default_routes() -> (r: Vec<Route>)
    ensures
        r@.len() == default_origins().len(),
        forall|i: int|
            0 <= i < r@.len() ==> (#[trigger] r@[i]).origin@ == default_origins()[i] && texts(
                r@[i].destinations@,
            ) == default_destinations(),
{
    let r = vec![
        tokyo_route("LAX"),
        tokyo_route("SFO"),
        tokyo_route("JFK"),
        tokyo_route("ORD"),
        tokyo_route("SEA"),
        tokyo_route("BOS"),
        tokyo_route("DFW"),
        tokyo_route("MIA"),
    ];
    r
}

/// Default port of the REST API.
pub const DEFAULT_API_PORT: u16 = 3000;

/// Default port of the health watchdog.
pub const DEFAULT_HEALTH_PORT: u16 = 8081;

pub open spec fn is_digit(c: char) -> bool {
    '0' <= c && c <= '9'
}

/// The value of a text of decimal digits.
pub open spec fn digits_value(s: Seq<char>) -> nat
    decreases s.len(),
{
    if s.len() == 0 {
        0
    } else {
        10 * digits_value(s.drop_last()) + ((s.last() as u32) - ('0' as u32)) as nat
    }
}

/// The text after an optional leading `+`.
pub open spec fn without_plus(s: Seq<char>) -> Seq<char> {
    if s.len() > 0 && s[0] == '+' {
        s.drop_first()
    } else {
        s
    }
}

pub open spec fn all_digits(s: Seq<char>) -> bool {
    forall|i: int| 0 <= i < s.len() ==> is_digit(#[trigger] s[i])
}

/// What `u16::from_str` accepts: an optional `+`, then one or more decimal
/// digits whose value fits in 16 bits.
pub open spec fn parsed_u16(s: Seq<char>) -> Option<u16> {
    let digits = without_plus(s);
    if digits.len() > 0 && all_digits(digits) && digits_value(digits) <= u16::MAX {
        Some(digits_value(digits) as u16)
    } else {
        None
    }
}

proof fn lemma_digits_value_grows(s: Seq<char>, c: char)
    requires
        is_digit(c),
    ensures
        digits_value(s.push(c)) == 10 * digits_value(s) + ((c as u32) - ('0' as u32)),
        digits_value(s.push(c)) >= digits_value(s),
{
    assert(s.push(c).drop_last() =~= s);
}

/// Parses a port number the way `u16::from_str` does.
pub fn parse_port(text: &str) -> (r: Option<u16>)
    ensures
        r == parsed_u16(text@),
{
    let n = text.unicode_len();
    let mut start: usize = 0;
    if n > 0 && text.get_char(0) == '+' {
        start = 1;
    }
    let ghost digits = without_plus(text@);
    assert(digits =~= text@.subrange(start as int, n as int));
    if start == n {
        return None;
    }
    let mut value: u32 = 0;
    let mut i: usize = start;
    while i < n
        invariant
            n == text@.len(),
            start <= i <= n,
            digits == text@.subrange(start as int, n as int),
            digits == without_plus(text@),
            forall|k: int| start <= k < i ==> is_digit(#[trigger] text@[k]),
            value as nat == digits_value(text@.subrange(start as int, i as int)),
            value <= u16::MAX,
        decreases n - i,
    {
        let c = text.get_char(i);
        if !('0' <= c && c <= '9') {
            proof {
                assert(digits[i - start] == c);
                assert(!is_digit(digits[i - start]));
                assert(!all_digits(digits));
            }
            return None;
        }
        let d: u32 = (c as u32) - ('0' as u32);
        proof {
            assert(text@.subrange(start as int, i + 1) =~= text@.subrange(start as int, i as int).push(c));
            lemma_digits_value_grows(text@.subrange(start as int, i as int), c);
        }
        let next: u32 = 10 * value + d;
        if next > 65535 {
            proof {
                if all_digits(digits) {
                    lemma_digits_prefix_bound(digits, (i + 1 - start) as int);
                    assert(digits.subrange(0, (i + 1 - start) as int) =~= text@.subrange(
                        start as int,
                        i + 1,
                    ));
                }
            }
            return None;
        }
        value = next;
        i = i + 1;
    }
    proof {
        assert(text@.subrange(start as int, n as int) =~= digits);
    }
    Some(value as u16)
}

/// A longer run of digits is worth at least as much as its prefix.
proof fn lemma_digits_prefix_bound(s: Seq<char>, k: int)
    requires
        0 <= k <= s.len(),
        all_digits(s),
    ensures
        digits_value(s.subrange(0, k)) <= digits_value(s),
    decreases s.len() - k,
{
    if k < s.len() {
        lemma_digits_prefix_bound(s, k + 1);
        assert(s.subrange(0, k + 1) =~= s.subrange(0, k).push(s[k]));
        lemma_digits_value_grows(s.subrange(0, k), s[k]);
    } else {
        assert(s.subrange(0, k) =~= s);
    }
}

/// Decimal-text law: the decimal text of a number is all digits, has no
/// leading zero, and reads back as the number.
pub proof fn law_decimal_text_reads_back(n: nat)
    ensures
        decimal_text(n).len() > 0,
        all_digits(decimal_text(n)),
        digits_value(decimal_text(n)) == n,
        n > 0 ==> decimal_text(n)[0] != '0',
    decreases n,
{
    if n < 10 {
        let t = decimal_text(n);
        assert(t =~= seq![decimal_digit(n as int)]);
        assert(t.drop_last() =~= Seq::<char>::empty());
        assert((decimal_digit(n as int) as u32) == 48 + n);
        assert(digits_value(t.drop_last()) == 0);
        assert(t.last() == decimal_digit(n as int));
        assert(digits_value(t) == 10 * digits_value(t.drop_last()) + ((t.last() as u32) - ('0' as u32)) as nat);
    } else {
        law_decimal_text_reads_back(n / 10);
        let head = decimal_text(n / 10);
        let c = decimal_digit((n % 10) as int);
        assert((c as u32) == 48 + n % 10);
        lemma_digits_value_grows(head, c);
        assert(decimal_text(n) == head.push(c));
        assert(10 * (n / 10) + n % 10 == n);
        assert(digits_value(decimal_text(n)) == 10 * digits_value(head) + ((c as u32) - ('0' as u32)));
        assert forall|i: int| 0 <= i < decimal_text(n).len() implies is_digit(#[trigger] decimal_text(n)[i]) by {
            if i < head.len() {
                assert(decimal_text(n)[i] == head[i]);
            }
        }
        if n / 10 > 0 {
            assert(decimal_text(n)[0] == head[0]);
        }
    }
}

/// Port round-trip law: every port's decimal text parses back to that port.
pub proof fn law_port_text_round_trip(port: u16)
    ensures
        parsed_u16(decimal_text(port as nat)) == Some(port),
{
    law_decimal_text_reads_back(port as nat);
    let t = decimal_text(port as nat);
    assert(t[0] != '+');
    assert(without_plus(t) == t);
}

/// A port taken from an environment variable: the parsed number, or
/// `fallback` when the text is not a valid port.
pub fn port_from_env(text: &str, fallback: u16) -> (p: u16)
    ensures
        p == match parsed_u16(text@) {
            Some(v) => v,
            None => fallback,
        },
{
    match parse_port(text) {
        Some(v) => v,
        None => fallback,
    }
}

} // verus!
