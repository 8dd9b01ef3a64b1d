//! The price sources the tracker queries.

use vstd::prelude::*;

use crate::text::text_eq;

verus! {

/// A flight price source.
#[derive(Debug, Clone, Copy, PartialEq, Eq, Structural)]
pub enum Source {
    GoogleFlights,
    Skyscanner,
    Kayak,
}

/// The stable text name of a source, as stored and displayed.
pub open spec fn source_name(s: Source) -> Seq<char> {
    match s {
        Source::GoogleFlights => "google_flights"@,
        Source::Skyscanner => "skyscanner"@,
        Source::Kayak => "kayak"@,
    }
}

impl Source {
    /// The text name of this source (`google_flights`, `skyscanner`, `kayak`).
    pub fn as_str(&self) -> (r: &'static str)
        ensures
            r@ == source_name(*self),
    {
        match self {
            Source::GoogleFlights => "google_flights",
            Source::Skyscanner => "skyscanner",
            Source::Kayak => "kayak",
        }
    }

    /// Parses a source from its text name; any other text gives `None`.
    pub fn from_str(s: &str) -> (r: Option<Source>)
        ensures
            r matches Some(src) ==> source_name(src) == s@,
            r is None ==> (forall|src: Source| source_name(src) != s@),
    {
        if text_eq(s, "google_flights") {
            Some(Source::GoogleFlights)
        } else if text_eq(s, "skyscanner") {
            Some(Source::Skyscanner)
        } else if text_eq(s, "kayak") {
            Some(Source::Kayak)
        } else {
            None
        }
    }
}

/// Source-name law: every source has its own name, so a source's name
/// parses back to that source.
pub proof fn law_source_names_round_trip(a: Source, b: Source)
    ensures
        source_name(a) == source_name(b) ==> a == b,
{
    reveal_strlit("google_flights");
    reveal_strlit("skyscanner");
    reveal_strlit("kayak");
    assert("google_flights"@.len() == 14);
    assert("skyscanner"@.len() == 10);
    assert("kayak"@.len() == 5);
    if source_name(a) == source_name(b) {
        assert(source_name(a).len() == source_name(b).len());
    }
}

} // verus!
