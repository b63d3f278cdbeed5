use vstd::prelude::*;

verus! {

/// Milliseconds in one second: clock readings are in milliseconds, TTLs in seconds.
pub const MILLIS_PER_SEC: u64 = 1000;

/// The in-memory tier as a mathematical map: key to (value, optional absolute expiry).
pub type StoreView = Map<Seq<char>, (Seq<char>, Option<u64>)>;

/// Whether an entry with the given absolute expiry is dead at instant `now`.
pub open spec fn expired_at(expires_at: Option<u64>, now: u64) -> bool {
    match expires_at {
        Some(t) => now > t,
        None => false,
    }
}

/// The absolute expiry of an entry written at `now` with an optional TTL in seconds.
/// A deadline past the end of the clock saturates to its last instant, which never expires.
pub open spec fn deadline(now: u64, ttl: Option<u64>) -> Option<u64> {
    match ttl {
        Some(t) => if now + t * MILLIS_PER_SEC <= u64::MAX {
            Some((now + t * MILLIS_PER_SEC) as u64)
        } else {
            Some(u64::MAX)
        },
        None => None,
    }
}

/// A live value under `key` at `now`: present and not expired.
pub open spec fn lookup(m: StoreView, key: Seq<char>, now: u64) -> Option<Seq<char>> {
    if m.contains_key(key) && !expired_at(m[key].1, now) {
        Some(m[key].0)
    } else {
        None
    }
}

/// The store after a read of `key` at `now`: an expired entry is dropped, nothing else changes.
pub open spec fn after_get(m: StoreView, key: Seq<char>, now: u64) -> StoreView {
    if m.contains_key(key) && expired_at(m[key].1, now) {
        m.remove(key)
    } else {
        m
    }
}

/// The store after `key` is written with `value` at `now`.
pub open spec fn stored(
    m: StoreView,
    key: Seq<char>,
    value: Seq<char>,
    ttl: Option<u64>,
    now: u64,
) -> StoreView {
    m.insert(key, (value, deadline(now, ttl)))
}

/// A cached value and the instant after which it is dead.
#[derive(Clone, Debug)]
pub struct CacheEntry {
    pub value: String,
    pub expires_at: Option<u64>,
}

impl CacheEntry {
    /// Expiration check: an entry expires strictly after its deadline.
    pub fn is_expired(&self, now: u64) -> (r: bool)
        ensures
            r == expired_at(self.expires_at, now),
    {
        match self.expires_at {
            Some(t) => now > t,
            None => false,
        }
    }
}

/// The absolute expiry for a write at `now` with an optional TTL in seconds.
pub fn expiry_for(now: u64, ttl: Option<u64>) -> (r: Option<u64>)
    ensures
        r == deadline(now, ttl),
{
    match ttl {
        Some(t) => {
            let at = match t.checked_mul(MILLIS_PER_SEC) {
                Some(ms) => match now.checked_add(ms) {
                    Some(at) => at,
                    None => u64::MAX,
                },
                None => u64::MAX,
            };
            proof {
                if t * MILLIS_PER_SEC > u64::MAX {
                    assert(now + t * MILLIS_PER_SEC > u64::MAX);
                }
            }
            Some(at)
        },
        None => None,
    }
}

} // verus!
