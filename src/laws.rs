use vstd::prelude::*;

use crate::cache::{lookup, run, step};
use crate::entry::CacheEntry;
use crate::error::CacheError;

verus! {

/// No two writes of `ops` use the same key.
pub open spec fn distinct_keys<K, V>(ops: Seq<(K, CacheEntry<V>)>) -> bool {
    forall|i: int, j: int|
        0 <= i < ops.len() && 0 <= j < ops.len() && i != j ==> ops[i].0 != ops[j].0
}

proof fn lemma_run_distinct_from_empty<K, V>(cap: nat, ops: Seq<(K, CacheEntry<V>)>)
    requires
        distinct_keys(ops),
    ensures
        run(Map::<K, CacheEntry<V>>::empty(), cap, ops).0.dom().finite(),
        run(Map::<K, CacheEntry<V>>::empty(), cap, ops).0.len() == if ops.len() < cap {
            ops.len()
        } else {
            cap
        },
        forall|k: K|
            #[trigger] run(Map::<K, CacheEntry<V>>::empty(), cap, ops).0.contains_key(k) ==> exists|
                i: int,
            |
                0 <= i < ops.len() && ops[i].0 == k,
        run(Map::<K, CacheEntry<V>>::empty(), cap, ops).1.len() == ops.len(),
        forall|i: int|
            0 <= i < ops.len() ==> #[trigger] run(Map::<K, CacheEntry<V>>::empty(), cap, ops).1[i]
                == if i < cap {
                Ok::<(), CacheError>(())
            } else {
                Err(CacheError::Full)
            },
    decreases ops.len(),
{
    if ops.len() > 0 {
        let prefix = ops.drop_last();
        assert(distinct_keys(prefix));
        lemma_run_distinct_from_empty(cap, prefix);
        let before = run(Map::<K, CacheEntry<V>>::empty(), cap, prefix);
        let n = ops.len() - 1;
        if n < cap {
            let k = ops.last().0;
            if before.0.contains_key(k) {
                let i = choose|i: int| 0 <= i < prefix.len() && prefix[i].0 == k;
                assert(ops[i].0 == ops[n].0);
            }
        }
        let after = run(Map::<K, CacheEntry<V>>::empty(), cap, ops);
        assert forall|k: K| #[trigger] after.0.contains_key(k) implies exists|i: int|
            0 <= i < ops.len() && ops[i].0 == k by {
            if k != ops.last().0 {
                let i = choose|i: int| 0 <= i < prefix.len() && prefix[i].0 == k;
                assert(ops[i].0 == k);
            } else {
                assert(ops[n].0 == k);
            }
        }
    }
}

/// Starting empty with capacity `cap`, a series of writes to distinct keys
/// succeeds for the first `cap` writes and is refused as full from then on;
/// the cache then holds as many entries as writes succeeded.
pub proof fn lemma_distinct_writes_fill_to_capacity<K, V>(cap: nat, ops: Seq<(K, CacheEntry<V>)>)
    requires
        distinct_keys(ops),
    ensures
        run(Map::<K, CacheEntry<V>>::empty(), cap, ops).1.len() == ops.len(),
        forall|i: int|
            0 <= i < ops.len() ==> #[trigger] run(Map::<K, CacheEntry<V>>::empty(), cap, ops).1[i]
                == if i < cap {
                Ok::<(), CacheError>(())
            } else {
                Err(CacheError::Full)
            },
        run(Map::<K, CacheEntry<V>>::empty(), cap, ops).0.len() == if ops.len() < cap {
            ops.len()
        } else {
            cap
        },
{
    lemma_run_distinct_from_empty(cap, ops);
}

/// Starting empty, a key that no write uses reads as absent.
pub proof fn lemma_unwritten_key_absent<K, V>(cap: nat, ops: Seq<(K, CacheEntry<V>)>, key: K)
    requires
        forall|i: int| 0 <= i < ops.len() ==> ops[i].0 != key,
    ensures
        lookup(run(Map::<K, CacheEntry<V>>::empty(), cap, ops).0, key) is None,
    decreases ops.len(),
{
    if ops.len() > 0 {
        lemma_unwritten_key_absent(cap, ops.drop_last(), key);
        assert(ops.last().0 != key);
    }
}

/// Two successful writes to the same key: a read returns the second value.
pub proof fn lemma_last_write_wins<K, V>(
    m: Map<K, CacheEntry<V>>,
    cap: nat,
    key: K,
    first: CacheEntry<V>,
    second: CacheEntry<V>,
)
    requires
        step(m, cap, key, first).1 is Ok,
        step(step(m, cap, key, first).0, cap, key, second).1 is Ok,
    ensures
        lookup(step(step(m, cap, key, first).0, cap, key, second).0, key) == Some(second.value),
{
}

/// At capacity, writing a key that is already present is refused as full and
/// changes nothing.
pub proof fn lemma_full_refuses_present_key<K, V>(
    m: Map<K, CacheEntry<V>>,
    cap: nat,
    key: K,
    e: CacheEntry<V>,
)
    requires
        m.contains_key(key),
        m.len() >= cap,
    ensures
        step(m, cap, key, e) == (m, Err::<(), CacheError>(CacheError::Full)),
{
}

/// With room for one entry, of two writes to an empty cache, in whichever
/// order they are serialised, the first succeeds, the second is refused as
/// full, and exactly the first one's entry remains.
pub proof fn lemma_single_slot_one_survivor<K, V>(
    first_key: K,
    first: CacheEntry<V>,
    second_key: K,
    second: CacheEntry<V>,
)
    ensures
        ({
            let (m1, r1) = step(Map::<K, CacheEntry<V>>::empty(), 1, first_key, first);
            let (m2, r2) = step(m1, 1, second_key, second);
            &&& r1 == Ok::<(), CacheError>(())
            &&& r2 == Err::<(), CacheError>(CacheError::Full)
            &&& m2 == Map::<K, CacheEntry<V>>::empty().insert(first_key, first)
            &&& m2.len() == 1
        }),
{
    let m1 = Map::<K, CacheEntry<V>>::empty().insert(first_key, first);
    assert(m1.dom() == Set::<K>::empty().insert(first_key));
}

} // verus!
