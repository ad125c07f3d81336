//! A verified core for a terminal web-search client: backend URL building
//! and result extraction, a paced fetch state machine with caching and
//! retries, and a paginated, deduplicated result session.

pub mod cache;
pub mod config;
pub mod engine;
pub mod fetch;
pub mod errors;
pub mod extract;
pub mod models;
pub mod session;
pub mod strutil;

use vstd::prelude::*;

verus! {

/// Number of results shown per page.
pub const ITEMS_PER_PAGE: usize = 10;

/// Minimum time between two user-initiated searches, in milliseconds.
pub const RATE_LIMIT_MS: u64 = 1000;

} // verus!
