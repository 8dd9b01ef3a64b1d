//! Verified core of the flight deal tracker: the rules that decide which
//! prices are deals, when to alert, which dates to search, and how the
//! tracker talks about routes, sources and health.

pub mod text;
pub mod source;
pub mod dates;
pub mod baseline;
pub mod detector;
pub mod routes;
pub mod dedup;
pub mod notifier;
pub mod health;
pub mod config;
pub mod api;
pub mod fetcher;
pub mod status;
pub mod clock;
