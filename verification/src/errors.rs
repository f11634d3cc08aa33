//! The error taxonomy shared by every repository operation.

use vstd::prelude::*;

verus! {

/// Why a repository operation failed.
///
/// None of these is recovered internally: every operation either succeeds or
/// hands the specific variant to its caller, with no retry and no partial
/// result.
#[derive(Clone, Copy, Debug, PartialEq, Eq, Structural)]
pub enum RepoError {
    /// Communication with a backing store failed in transport.
    StoreError,
    /// A stored payload does not match the expected entity shape.
    DecodeError,
    /// A key-value lookup found no value under the requested key.
    NotFound,
    /// Finalization was attempted while some field was neither set nor
    /// covered by the defaulting policy.
    IncompleteBuilder,
}

impl RepoError {
    /// A short label for the variant, for callers that report errors.
    pub fn label(&self) -> (r: &'static str)
        ensures
            *self is StoreError ==> r@ == "store error"@,
            *self is DecodeError ==> r@ == "decode error"@,
            *self is NotFound ==> r@ == "not found"@,
            *self is IncompleteBuilder ==> r@ == "incomplete builder"@,
    {
        match self {
            RepoError::StoreError => "store error",
            RepoError::DecodeError => "decode error",
            RepoError::NotFound => "not found",
            RepoError::IncompleteBuilder => "incomplete builder",
        }
    }
}

} // verus!
