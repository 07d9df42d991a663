//! Failures the store reports to its callers.

use vstd::prelude::*;

verus! {

/// What a store operation can fail with.
#[derive(Debug)]
pub enum StoreError {
    /// An insert found a row whose `id` was already present, either in the
    /// table or earlier in the same batch.
    DuplicateId,
    /// The storage engine failed (I/O, corruption, lock); the string is the
    /// engine's own message.
    Storage(String),
}

impl StoreError {
    /// A plain-text description, for callers that surface errors as strings.
    pub fn message(&self) -> (s: String)
        ensures
            self is DuplicateId ==> s@ == "duplicate task id"@,
            (*self) matches StoreError::Storage(m) ==> s@ == m@,
    {
        match self {
            StoreError::DuplicateId => "duplicate task id".to_owned(),
            StoreError::Storage(m) => m.clone(),
        }
    }
}

} // verus!
