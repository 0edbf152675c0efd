use vstd::prelude::*;

verus! {

/// Why a cache operation did not succeed.
#[derive(Debug, Clone, Copy, PartialEq, Eq, Structural)]
pub enum CacheError {
    /// The cache already held as many entries as its capacity allows.
    Full,
    /// The key is absent; for callers that prefer a failure to an empty result.
    NotFound,
}

impl CacheError {
    /// The human-readable message of this error.
    pub fn message(&self) -> (r: &'static str)
        ensures
            *self == CacheError::Full ==> r@ == "Cache is full"@,
            *self == CacheError::NotFound ==> r@ == "Key not found"@,
    {
        match self {
            CacheError::Full => "Cache is full",
            CacheError::NotFound => "Key not found",
        }
    }
}

} // verus!
