//! Errors that the repositories report.
use vstd::prelude::*;

verus! {

/// What a repository call can fail with: no row had the requested
/// identifier, or the database failed, with the database's message.
#[derive(Debug, Clone)]
pub enum RepoError {
    RowNotFound,
    Database(String),
}

} // verus!
