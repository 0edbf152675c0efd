use std::collections::HashMap;
use std::hash::Hash;
use vstd::prelude::*;
use vstd::std_specs::hash::obeys_key_model;

use crate::clock::epoch_seconds;
use crate::entry::CacheEntry;
use crate::error::CacheError;

verus! {

/// What one write does to the entries `m` of a cache of capacity `cap`.
///
/// The write is refused, and nothing changes, when the cache already holds
/// `cap` entries or more, whether or not `key` is among them. Otherwise `e` is
/// stored under `key`, replacing any earlier entry for it.
pub open spec fn step<K, V>(m: Map<K, CacheEntry<V>>, cap: nat, key: K, e: CacheEntry<V>) -> (
    Map<K, CacheEntry<V>>,
    Result<(), CacheError>,
) {
    if m.len() >= cap {
        (m, Err(CacheError::Full))
    } else {
        (m.insert(key, e), Ok(()))
    }
}

/// A series of writes, one `step` after another: the entries at the end and
/// the outcome of each write, in order.
pub open spec fn run<K, V>(m: Map<K, CacheEntry<V>>, cap: nat, ops: Seq<(K, CacheEntry<V>)>) -> (
    Map<K, CacheEntry<V>>,
    Seq<Result<(), CacheError>>,
)
    decreases ops.len(),
{
    if ops.len() == 0 {
        (m, Seq::empty())
    } else {
        let before = run(m, cap, ops.drop_last());
        let last = step(before.0, cap, ops.last().0, ops.last().1);
        (last.0, before.1.push(last.1))
    }
}

/// What a read of `key` returns: the stored value, whatever its time to live.
pub open spec fn lookup<K, V>(m: Map<K, CacheEntry<V>>, key: K) -> Option<V> {
    if m.contains_key(key) {
        Some(m[key].value)
    } else {
        None
    }
}

/// A key-value store that holds at most a fixed number of entries.
///
/// Its view is the map from each key to its entry. A write that would find the
/// store at capacity is refused; nothing is ever evicted.
pub struct Cache<K, V> {
    store: HashMap<K, CacheEntry<V>>,
    max_size: usize,
}

impl<K, V> View for Cache<K, V> {
    type V = Map<K, CacheEntry<V>>;

    closed spec fn view(&self) -> Map<K, CacheEntry<V>> {
        self.store@
    }
}

impl<K: Hash + Eq + Clone, V: Copy> Cache<K, V> {
    /// The largest number of entries the cache may hold, fixed at creation.
    pub closed spec fn capacity(&self) -> nat {
        self.max_size as nat
    }

    /// Keys hash and compare consistently, and the cache is within capacity.
    pub open spec fn wf(&self) -> bool {
        &&& obeys_key_model::<K>()
        &&& self@.dom().finite()
        &&& self@.len() <= self.capacity()
    }

    /// An empty cache that will hold at most `max_size` entries.
    pub fn new(max_size: usize) -> (r: Self)
        requires
            obeys_key_model::<K>(),
        ensures
            r.wf(),
            r@ == Map::<K, CacheEntry<V>>::empty(),
            r.capacity() == max_size,
    {
        Cache { store: HashMap::new(), max_size }
    }

    /// A copy of the value stored under `key`, or `None`.
    pub fn get(&self, key: &K) -> (r: Option<V>)
        requires
            self.wf(),
        ensures
            r == lookup(self@, *key),
    {
        match self.store.get(key) {
            Some(e) => Some(e.value),
            None => None,
        }
    }

    /// Stores `value` under `key` with the given creation time and time to
    /// live, or refuses with `CacheError::Full` when the cache holds as many
    /// entries as its capacity, even where `key` is one of them.
    pub fn set_at(&mut self, key: K, value: V, ttl: Option<u64>, created_at: u64) -> (r: Result<
        (),
        CacheError,
    >)
        requires
            old(self).wf(),
        ensures
            final(self).wf(),
            final(self).capacity() == old(self).capacity(),
            (final(self)@, r) == step(
                old(self)@,
                old(self).capacity(),
                key,
                (CacheEntry { value, created_at, ttl }),
            ),
    {
        if self.store.len() >= self.max_size {
            return Err(CacheError::Full);
        }
        let entry = CacheEntry { value, created_at, ttl };
        self.store.insert(key, entry);
        Ok(())
    }

    /// Stores `value` under `key`, stamped with the current time in seconds
    /// since the Unix epoch, or refuses as `set_at` does.
    ///
    /// A clock that stands before the epoch stamps the entry with 0.
    pub fn set(&mut self, key: K, value: V, ttl: Option<u64>) -> (r: Result<(), CacheError>)
        requires
            old(self).wf(),
        ensures
            final(self).wf(),
            final(self).capacity() == old(self).capacity(),
            (final(self)@, r) == step(
                old(self)@,
                old(self).capacity(),
                key,
                (CacheEntry { value, created_at: final(self)@[key].created_at, ttl }),
            ),
    {
        let now: u64 = match epoch_seconds() {
            Some(t) => t,
            None => 0,
        };
        self.set_at(key, value, ttl, now)
    }
}

} // verus!
