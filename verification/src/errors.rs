//! The failure taxonomy of the read model.

use vstd::prelude::*;

verus! {

/// Every way a read operation can fail.  No operation recovers locally: a
/// failure is passed through unchanged to the caller.
#[derive(Clone, Copy, PartialEq, Eq, Structural, Debug)]
pub enum QueryError {
    /// A single-row read matched no row.
    NotFound,
    /// Pagination normalization rejected the caller's (page, limit) pair.
    InvalidPagination,
    /// An underlying storage-engine failure, surfaced by the layer that reads
    /// the snapshot.  The in-memory query functions never produce it.
    StorageError,
}

impl QueryError {
    /// A short description, for callers that render failures.
    pub fn as_text(&self) -> (r: &'static str)
        ensures
            *self is NotFound ==> r@ == "not found"@,
            *self is InvalidPagination ==> r@ == "invalid pagination"@,
            *self is StorageError ==> r@ == "storage error"@,
    {
        proof {
            reveal_strlit("not found");
            reveal_strlit("invalid pagination");
            reveal_strlit("storage error");
        }
        match self {
            QueryError::NotFound => "not found",
            QueryError::InvalidPagination => "invalid pagination",
            QueryError::StorageError => "storage error",
        }
    }
}

} // verus!
