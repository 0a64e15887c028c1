//! State shared by the read-only REST API handlers.

use vstd::prelude::*;

use std::path::PathBuf;

verus! {

#[verifier::external_type_specification]
#[verifier::external_body]
pub struct ExPathBuf(PathBuf);

/// State shared across all REST handlers: the database path, from which each
/// handler opens its own short-lived read-only connection.
pub struct ApiState {
    pub db_path: PathBuf,
}

} // verus!
