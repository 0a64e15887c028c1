//! Rows read from and written to the SQLite store, and the parts of its
//! queries that are computed rather than fixed.

pub mod search;
pub mod segments;
pub mod sessions;
pub mod speakers;
