use vstd::prelude::*;

use crate::engine::{
    after_commit, after_set, cache_error_of, lands_at_once, CacheConfig, CacheError, StoreError,
    WritePolicy, Backend,
};
use crate::entry::{after_get, deadline, lookup, stored, StoreView, MILLIS_PER_SEC};

verus! {

/// Writes `keys[i] := values[i]` in order, without TTL, all at instant `now`.
pub open spec fn stored_all(
    m: StoreView,
    keys: Seq<Seq<char>>,
    values: Seq<Seq<char>>,
    now: u64,
) -> StoreView
    decreases keys.len(),
{
    if keys.len() == 0 {
        m
    } else {
        stored(
            stored_all(m, keys.drop_last(), values.drop_last(), now),
            keys.last(),
            values.last(),
            None,
            now,
        )
    }
}

/// TTL correctness: a value written at `now` with a TTL of `t` seconds is read back at any
/// instant up to `now + t` seconds; strictly after that it reads as not found, and that read
/// removes the entry, so the store holds one entry fewer.
pub proof fn lemma_ttl_correct(
    m: StoreView,
    key: Seq<char>,
    value: Seq<char>,
    t: u64,
    now: u64,
    later: u64,
)
    ensures
        later <= now + t * MILLIS_PER_SEC ==> lookup(stored(m, key, value, Some(t), now), key, later)
            == Some(value),
        later > now + t * MILLIS_PER_SEC ==> {
            let s = stored(m, key, value, Some(t), now);
            &&& lookup(s, key, later) is None
            &&& after_get(s, key, later) == s.remove(key)
            &&& !after_get(s, key, later).contains_key(key)
            &&& (m.dom().finite() ==> after_get(s, key, later).len() + 1 == s.len())
        },
{
    let s = stored(m, key, value, Some(t), now);
    assert(s[key] == (value, deadline(now, Some(t))));
    if later > now + t * MILLIS_PER_SEC {
        assert(s.remove(key).dom() =~= s.dom().remove(key));
    }
}

/// No-TTL persistence: a value written without TTL is read back at every later instant,
/// and reading it changes nothing.
pub proof fn lemma_no_ttl_persists(
    m: StoreView,
    key: Seq<char>,
    value: Seq<char>,
    now: u64,
    later: u64,
)
    ensures
        lookup(stored(m, key, value, None, now), key, later) == Some(value),
        after_get(stored(m, key, value, None, now), key, later) == stored(m, key, value, None, now),
{
    assert(stored(m, key, value, None, now)[key] == (value, None::<u64>));
}

/// Last write wins: after two writes of one key, the store holds the later value and
/// the later deadline, exactly as if the first write had never happened.
pub proof fn lemma_last_write_wins(
    m: StoreView,
    key: Seq<char>,
    v1: Seq<char>,
    ttl1: Option<u64>,
    now1: u64,
    v2: Seq<char>,
    ttl2: Option<u64>,
    now2: u64,
)
    ensures
        stored(stored(m, key, v1, ttl1, now1), key, v2, ttl2, now2)[key] == (v2, deadline(now2, ttl2)),
        stored(stored(m, key, v1, ttl1, now1), key, v2, ttl2, now2) == stored(m, key, v2, ttl2, now2),
{
    assert(stored(stored(m, key, v1, ttl1, now1), key, v2, ttl2, now2) =~= stored(
        m,
        key,
        v2,
        ttl2,
        now2,
    ));
}

/// Write-through atomicity: when the persistent tier refuses a write-through write, the
/// caller gets an error and the in-memory store is exactly as before, at every instant.
pub proof fn lemma_write_through_atomic(
    cfg: CacheConfig,
    m: StoreView,
    key: Seq<char>,
    value: Seq<char>,
    ttl: Option<u64>,
    now: u64,
    e: StoreError,
)
    requires
        cfg.write == WritePolicy::WriteThrough,
        cfg.backend != Backend::Disabled,
    ensures
        !lands_at_once(cfg),
        after_set(cfg, m, key, value, ttl, now) == m,
        after_commit(after_set(cfg, m, key, value, ttl, now), key, value, deadline(now, ttl), false)
            == m,
        cache_error_of(e) == CacheError::BackendUnavailable || cache_error_of(e)
            == CacheError::BackendWriteFailed,
{
}

/// Write-behind availability: a write-behind write lands in memory before the persistent
/// tier is even asked, so whatever that tier does, the key reads back at once.
pub proof fn lemma_write_behind_available(
    cfg: CacheConfig,
    m: StoreView,
    key: Seq<char>,
    value: Seq<char>,
    ttl: Option<u64>,
    now: u64,
)
    requires
        cfg.write == WritePolicy::WriteBehind,
    ensures
        lands_at_once(cfg),
        lookup(after_set(cfg, m, key, value, ttl, now), key, now) == Some(value),
{
    let s = after_set(cfg, m, key, value, ttl, now);
    assert(s[key] == (value, deadline(now, ttl)));
}

/// Writes to distinct keys commute: their order does not change the resulting store.
pub proof fn lemma_disjoint_writes_commute(
    m: StoreView,
    k1: Seq<char>,
    v1: Seq<char>,
    ttl1: Option<u64>,
    k2: Seq<char>,
    v2: Seq<char>,
    ttl2: Option<u64>,
    now: u64,
)
    requires
        k1 != k2,
    ensures
        stored(stored(m, k1, v1, ttl1, now), k2, v2, ttl2, now) == stored(
            stored(m, k2, v2, ttl2, now),
            k1,
            v1,
            ttl1,
            now,
        ),
{
    assert(stored(stored(m, k1, v1, ttl1, now), k2, v2, ttl2, now) =~= stored(
        stored(m, k2, v2, ttl2, now),
        k1,
        v1,
        ttl1,
        now,
    ));
}

/// No lost updates: after writes to pairwise distinct keys, every key reads back its own value.
pub proof fn lemma_disjoint_writes_all_readable(
    m: StoreView,
    keys: Seq<Seq<char>>,
    values: Seq<Seq<char>>,
    now: u64,
)
    requires
        keys.len() == values.len(),
        forall|i: int, j: int| 0 <= i < j < keys.len() ==> keys[i] != keys[j],
    ensures
        forall|i: int|
            0 <= i < keys.len() ==> #[trigger] lookup(stored_all(m, keys, values, now), keys[i], now)
                == Some(values[i]),
    decreases keys.len(),
{
    if keys.len() > 0 {
        let ks = keys.drop_last();
        let vs = values.drop_last();
        lemma_disjoint_writes_all_readable(m, ks, vs, now);
        let prev = stored_all(m, ks, vs, now);
        let s = stored_all(m, keys, values, now);
        assert forall|i: int| 0 <= i < keys.len() implies #[trigger] lookup(s, keys[i], now) == Some(
            values[i],
        ) by {
            if i < keys.len() - 1 {
                assert(ks[i] == keys[i]);
                assert(vs[i] == values[i]);
                assert(lookup(prev, ks[i], now) == Some(vs[i]));
                assert(keys[i] != keys.last());
            }
        }
    }
}

} // verus!
