//! Query parameters of the REST API and their defaults.

use vstd::prelude::*;

use crate::text::text_eq;

verus! {

/// Deals listed when the query gives no limit.
pub const DEFAULT_DEALS_LIMIT: u32 = 50;

/// Days of history returned when the query gives none.
pub const DEFAULT_HISTORY_DAYS: u32 = 30;

/// Parameters of `GET /api/deals`.
#[derive(Debug, Clone)]
pub struct DealsQuery {
    pub limit: Option<u32>,
    pub route: Option<String>,
}

/// Parameters of `GET /api/routes/:route/history`.
#[derive(Debug, Clone)]
pub struct HistoryQuery {
    pub days: Option<u32>,
    pub source: Option<String>,
}

pub open spec fn opt_text(o: Option<String>) -> Option<Seq<char>> {
    match o {
        Some(s) => Some(s@),
        None => None,
    }
}

impl DealsQuery {
    /// How many recent alerts to list: the given limit, else 50.
    pub fn limit_or_default(&self) -> (n: u32)
        ensures
            n == match self.limit {
                Some(l) => l,
                None => DEFAULT_DEALS_LIMIT,
            },
    {
        match self.limit {
            Some(l) => l,
            None => DEFAULT_DEALS_LIMIT,
        }
    }

    /// The route filter, if one was given.
    pub fn route_filter(&self) -> (r: Option<&str>)
        ensures
            match r {
                Some(t) => opt_text(self.route) == Some(t@),
                None => self.route is None,
            },
    {
        match &self.route {
            Some(s) => Some(s.as_str()),
            None => None,
        }
    }
}

impl HistoryQuery {
    /// How many days of history to return: the given number, else 30.
    pub fn days_or_default(&self) -> (n: u32)
        ensures
            n == match self.days {
                Some(d) => d,
                None => DEFAULT_HISTORY_DAYS,
            },
    {
        match self.days {
            Some(d) => d,
            None => DEFAULT_HISTORY_DAYS,
        }
    }

    /// The source to restrict the history to: none when no source or `all`
    /// was given.
    pub fn source_filter(&self) -> (r: Option<&str>)
        ensures
            match r {
                Some(t) => opt_text(self.source) == Some(t@) && t@ != "all"@,
                None => self.source is None || opt_text(self.source) == Some("all"@),
            },
    {
        match &self.source {
            Some(s) => {
                if text_eq(s.as_str(), "all") {
                    None
                } else {
                    Some(s.as_str())
                }
            },
            None => None,
        }
    }
}

/// Unicode upper-casing of a text, as `str::to_uppercase` gives it.
pub uninterp spec fn uppercase_text(s: Seq<char>) -> Seq<char>;

/// std's `str::to_uppercase`. Claims: the text named by `uppercase_text`.
#[verifier::external_body]
fn to_uppercase(s: &str) -> (r: String)
    ensures
        r@ == uppercase_text(s@),
{
    s.to_uppercase()
}

/// The route label of a history answer: the requested route in upper case.
pub fn history_route_label(route: &str) -> (r: String)
    ensures
        r@ == uppercase_text(route@),
{
    to_uppercase(route)
}

} // verus!
