//! Recording sessions and their listing.

use vstd::prelude::*;

verus! {

/// A speaker heard in a session.
#[derive(Debug, Clone, PartialEq, Eq)]
pub struct SessionParticipant {
    pub speech_swift_id: i64,
    pub display_name: Option<String>,
}

/// A session row with its participants.
#[derive(Debug, Clone, PartialEq, Eq)]
pub struct SessionRow {
    pub id: i64,
    pub created_at: i64,
    pub label: Option<String>,
    pub duration_ms: Option<i64>,
    pub source: String,
    pub participants: Vec<SessionParticipant>,
}

/// One page of sessions and the number of sessions matching the filter.
#[derive(Debug, Clone, PartialEq, Eq)]
pub struct SessionsPage {
    pub sessions: Vec<SessionRow>,
    pub total_count: i64,
}

#[derive(Debug, Clone, Copy, PartialEq, Eq)]
pub enum SortBy {
    Date,
    Duration,
}

#[derive(Debug, Clone, Copy, PartialEq, Eq)]
pub enum SortDir {
    Asc,
    Desc,
}

/// Listing filter: an optional creation-date window, the sort order, and
/// the page (1-based) with its size.
#[derive(Debug, Clone, Copy, PartialEq, Eq)]
pub struct SessionFilter {
    pub start_date: Option<i64>,
    pub end_date: Option<i64>,
    pub sort_by: SortBy,
    pub sort_dir: SortDir,
    pub page: u32,
    pub page_size: u32,
}

/// Page shown when the caller names none.
pub const DEFAULT_PAGE: u32 = 1;

/// Page size used when the caller names none.
pub const DEFAULT_PAGE_SIZE: u32 = 20;

impl SessionFilter {
    /// The filter of a REST listing request: the given date window and page,
    /// page 1 of 20 by default, newest first.
    pub fn from_query(start_date: Option<i64>, end_date: Option<i64>, page: Option<u32>, page_size: Option<u32>) -> (f: SessionFilter)
        ensures
            f.start_date == start_date,
            f.end_date == end_date,
            f.sort_by == SortBy::Date,
            f.sort_dir == SortDir::Desc,
            f.page == (match page {
                Some(p) => p,
                None => DEFAULT_PAGE,
            }),
            f.page_size == (match page_size {
                Some(n) => n,
                None => DEFAULT_PAGE_SIZE,
            }),
    {
        SessionFilter {
            start_date,
            end_date,
            sort_by: SortBy::Date,
            sort_dir: SortDir::Desc,
            page: match page {
                Some(p) => p,
                None => DEFAULT_PAGE,
            },
            page_size: match page_size {
                Some(n) => n,
                None => DEFAULT_PAGE_SIZE,
            },
        }
    }
}

/// The `ORDER BY` clause for a sort field and direction.
pub open spec fn spec_order_clause(sort_by: SortBy, sort_dir: SortDir) -> Seq<char> {
    match (sort_by, sort_dir) {
        (SortBy::Date, SortDir::Desc) => "created_at DESC"@,
        (SortBy::Date, SortDir::Asc) => "created_at ASC"@,
        (SortBy::Duration, SortDir::Desc) => "duration_ms DESC"@,
        (SortBy::Duration, SortDir::Asc) => "duration_ms ASC"@,
    }
}

/// The `ORDER BY` clause of a session listing.
pub fn order_clause(sort_by: SortBy, sort_dir: SortDir) -> (clause: &'static str)
    ensures
        clause@ == spec_order_clause(sort_by, sort_dir),
{
    match (sort_by, sort_dir) {
        (SortBy::Date, SortDir::Desc) => "created_at DESC",
        (SortBy::Date, SortDir::Asc) => "created_at ASC",
        (SortBy::Duration, SortDir::Desc) => "duration_ms DESC",
        (SortBy::Duration, SortDir::Asc) => "duration_ms ASC",
    }
}

/// Rows to skip for a 1-based page (page 0 is treated as page 1).
pub fn page_offset(page: u32, page_size: u32) -> (offset: i64)
    requires
        (if page >= 1 { page - 1 } else { 0 }) * page_size <= i64::MAX,
    ensures
        offset == (if page >= 1 { page - 1 } else { 0 }) * page_size,
{
    let before = if page >= 1 { page - 1 } else { 0 };
    (before as i64) * (page_size as i64)
}

} // verus!
