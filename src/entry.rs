use vstd::prelude::*;

verus! {

/// A stored value together with its metadata.
///
/// `created_at` is the insertion time in seconds since the Unix epoch, set by
/// the cache itself; `ttl`, when present, is the number of seconds after which
/// the entry counts as stale. The time to live is kept as advisory metadata:
/// nothing in the cache acts on it.
#[derive(Debug, Clone)]
pub struct CacheEntry<T> {
    pub value: T,
    pub created_at: u64,
    pub ttl: Option<u64>,
}

} // verus!
