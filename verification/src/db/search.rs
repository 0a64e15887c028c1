//! Semantic search over transcript segments.

use vstd::prelude::*;

verus! {

/// Number of results returned when the caller gives no limit.
pub const DEFAULT_SEARCH_LIMIT: u32 = 50;

/// Hard cap on the number of results.
pub const MAX_SEARCH_LIMIT: u32 = 100;

/// Optional filters of a search.
#[derive(Debug, Clone, Copy, PartialEq, Eq)]
pub struct SearchFilters {
    pub speaker_id: Option<i64>,
    pub start_date: Option<i64>,
    pub end_date: Option<i64>,
    pub limit: Option<u32>,
}

/// The number of nearest neighbours to fetch: the caller's limit (50 when
/// unset), capped at 100.
pub fn effective_limit(limit: Option<u32>) -> (n: i64)
    ensures
        n == (match limit {
            Some(l) => if l <= MAX_SEARCH_LIMIT { l } else { MAX_SEARCH_LIMIT },
            None => DEFAULT_SEARCH_LIMIT,
        }),
{
    let l = match limit {
        Some(l) => l,
        None => DEFAULT_SEARCH_LIMIT,
    };
    let capped = if l <= MAX_SEARCH_LIMIT { l } else { MAX_SEARCH_LIMIT };
    capped as i64
}

} // verus!
