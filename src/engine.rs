use vstd::prelude::*;

use crate::entry::{after_get, deadline, expiry_for, lookup, stored, CacheEntry, StoreView};
use crate::store::EntryStore;

verus! {

/// When a write reaches the persistent tier.
#[derive(Clone, Copy, Debug, PartialEq, Eq, Structural)]
pub enum WritePolicy {
    /// The write is acknowledged only after the persistent tier has it.
    WriteThrough,
    /// The write is acknowledged at once; the persistent write runs detached.
    WriteBehind,
}

/// Which durable backend, if any, stands behind the in-memory tier.
#[derive(Clone, Copy, Debug, PartialEq, Eq, Structural)]
pub enum Backend {
    Disabled,
    OrderedStore,
    DocumentStore,
}

/// What a read that misses the in-memory tier does.
#[derive(Clone, Copy, Debug, PartialEq, Eq, Structural)]
pub enum ReadPolicy {
    /// A miss is reported as not found.
    MemoryOnly,
    /// A miss asks the persistent tier; a hit there is cached again without expiry.
    ReadThrough,
}

/// The deployment's choices, fixed for the life of an engine.
#[derive(Clone, Copy, Debug, PartialEq, Eq, Structural)]
pub struct CacheConfig {
    pub write: WritePolicy,
    pub backend: Backend,
    pub read: ReadPolicy,
}

/// A failure reported by the persistent tier.
#[derive(Clone, Copy, Debug, PartialEq, Eq, Structural)]
pub enum StoreError {
    Unavailable,
    WriteFailed,
}

/// A failure of a cache operation, as the caller sees it.
#[derive(Clone, Copy, Debug, PartialEq, Eq, Structural)]
pub enum CacheError {
    BackendUnavailable,
    BackendWriteFailed,
}

/// The triple handed to the persistent tier for one write.
#[derive(Clone, Debug)]
pub struct PersistRecord {
    pub key: String,
    pub value: String,
    pub ttl: Option<u64>,
}

/// A write-through write that waits for the persistent tier before it lands in memory.
#[derive(Clone, Debug)]
pub struct PendingSet {
    pub key: String,
    pub entry: CacheEntry,
}

/// What the caller must do after a `set`.
#[derive(Clone, Debug)]
pub enum SetStep {
    /// The write has landed; nothing to persist.
    Stored,
    /// The write has landed; persist the record in the background and ignore the outcome.
    Dispatch(PersistRecord),
    /// Persist the record, then hand the outcome to `finish_set` with the pending write.
    Await(PendingSet, PersistRecord),
}

/// What the caller must do after a `get`.
#[derive(Clone, Debug)]
pub enum GetStep {
    Hit(String),
    Miss,
    /// Look the key up in the persistent tier, then hand the outcome to `finish_fetch`.
    Fetch(String),
}

/// A write lands in memory at once when no backend is configured or under write-behind.
pub open spec fn lands_at_once(cfg: CacheConfig) -> bool {
    cfg.backend == Backend::Disabled || cfg.write == WritePolicy::WriteBehind
}

/// A miss goes on to the persistent tier only where one is configured and read-through is chosen.
pub open spec fn fetches_on_miss(cfg: CacheConfig) -> bool {
    cfg.backend != Backend::Disabled && cfg.read == ReadPolicy::ReadThrough
}

/// The store right after a `set` returns.
pub open spec fn after_set(
    cfg: CacheConfig,
    m: StoreView,
    key: Seq<char>,
    value: Seq<char>,
    ttl: Option<u64>,
    now: u64,
) -> StoreView {
    if lands_at_once(cfg) {
        stored(m, key, value, ttl, now)
    } else {
        m
    }
}

/// The store after a pending write-through write learns whether the persistent tier took it.
pub open spec fn after_commit(
    m: StoreView,
    key: Seq<char>,
    value: Seq<char>,
    expires_at: Option<u64>,
    persisted: bool,
) -> StoreView {
    if persisted {
        m.insert(key, (value, expires_at))
    } else {
        m
    }
}

/// The caller's error for a failure of the persistent tier.
pub open spec fn cache_error_of(e: StoreError) -> CacheError {
    match e {
        StoreError::Unavailable => CacheError::BackendUnavailable,
        StoreError::WriteFailed => CacheError::BackendWriteFailed,
    }
}

/// The tiered cache: an entry store with lazy expiration and a write-propagation policy.
pub struct CacheEngine {
    store: EntryStore,
    config: CacheConfig,
}

impl View for CacheEngine {
    type V = StoreView;

    closed spec fn view(&self) -> StoreView {
        self.store@
    }
}

impl CacheEngine {
    pub closed spec fn cfg(&self) -> CacheConfig {
        self.config
    }

    pub closed spec fn wf(&self) -> bool {
        self.store.wf()
    }

    pub fn new(config: CacheConfig) -> (r: CacheEngine)
        ensures
            r.wf(),
            r.cfg() == config,
            r@ == StoreView::empty(),
    {
        CacheEngine { store: EntryStore::new(), config }
    }

    pub fn config(&self) -> (r: CacheConfig)
        ensures
            r == self.cfg(),
    {
        self.config
    }

    /// Number of entries held in memory, expired but unread ones included.
    pub fn len(&self) -> (r: usize)
        ensures
            r == self@.len(),
    {
        self.store.len()
    }

    /// Read `key` at instant `now`. An expired entry is removed before the miss is reported.
    pub fn get(&mut self, key: &str, now: u64) -> (r: GetStep)
        requires
            old(self).wf(),
        ensures
            final(self).wf(),
            final(self).cfg() == old(self).cfg(),
            final(self)@ == after_get(old(self)@, key@, now),
            match r {
                GetStep::Hit(v) => lookup(old(self)@, key@, now) == Some(v@),
                GetStep::Miss => lookup(old(self)@, key@, now) is None && !fetches_on_miss(
                    old(self).cfg(),
                ),
                GetStep::Fetch(k) => lookup(old(self)@, key@, now) is None && fetches_on_miss(
                    old(self).cfg(),
                ) && k@ == key@,
            },
    {
        match self.store.get(key) {
            Some(entry) => {
                if entry.is_expired(now) {
                    self.store.remove(key);
                    self.miss(key)
                } else {
                    GetStep::Hit(entry.value)
                }
            },
            None => self.miss(key),
        }
    }

    fn miss(&self, key: &str) -> (r: GetStep)
        ensures
            match r {
                GetStep::Hit(_) => false,
                GetStep::Miss => !fetches_on_miss(self.cfg()),
                GetStep::Fetch(k) => fetches_on_miss(self.cfg()) && k@ == key@,
            },
    {
        if self.config.backend != Backend::Disabled && self.config.read == ReadPolicy::ReadThrough {
            GetStep::Fetch(key.to_string())
        } else {
            GetStep::Miss
        }
    }

    /// Finish a read-through miss with what the persistent tier returned for `key`.
    /// A value found there is cached again without expiry; a failure reads as not found.
    pub fn finish_fetch(&mut self, key: String, fetched: Result<Option<String>, StoreError>) -> (r:
        Option<String>)
        requires
            old(self).wf(),
        ensures
            final(self).wf(),
            final(self).cfg() == old(self).cfg(),
            match fetched {
                Ok(Some(v)) => r == Some(v) && final(self)@ == old(self)@.insert(key@, (v@, None)),
                _ => r is None && final(self)@ == old(self)@,
            },
    {
        match fetched {
            Ok(Some(v)) => {
                self.store.set(key, v.clone(), None);
                Some(v)
            },
            _ => None,
        }
    }

    /// Write `key` at instant `now`, with an optional TTL in seconds, under the configured policy.
    pub fn set(&mut self, key: String, value: String, ttl: Option<u64>, now: u64) -> (r: SetStep)
        requires
            old(self).wf(),
        ensures
            final(self).wf(),
            final(self).cfg() == old(self).cfg(),
            final(self)@ == after_set(old(self).cfg(), old(self)@, key@, value@, ttl, now),
            match r {
                SetStep::Stored => old(self).cfg().backend == Backend::Disabled,
                SetStep::Dispatch(rec) => old(self).cfg().backend != Backend::Disabled
                    && old(self).cfg().write == WritePolicy::WriteBehind && rec.key@ == key@
                    && rec.value@ == value@ && rec.ttl == ttl,
                SetStep::Await(p, rec) => !lands_at_once(old(self).cfg()) && p.key@ == key@
                    && p.entry.value@ == value@ && p.entry.expires_at == deadline(now, ttl)
                    && rec.key@ == key@ && rec.value@ == value@ && rec.ttl == ttl,
            },
    {
        let expires_at = expiry_for(now, ttl);
        match self.config.backend {
            Backend::Disabled => {
                self.store.set(key, value, expires_at);
                SetStep::Stored
            },
            _ => {
                let rec = PersistRecord { key: key.clone(), value: value.clone(), ttl };
                match self.config.write {
                    WritePolicy::WriteBehind => {
                        self.store.set(key, value, expires_at);
                        SetStep::Dispatch(rec)
                    },
                    WritePolicy::WriteThrough => {
                        let p = PendingSet { key, entry: CacheEntry { value, expires_at } };
                        SetStep::Await(p, rec)
                    },
                }
            },
        }
    }

    /// Finish a write-through write: it lands in memory only if the persistent tier took it.
    pub fn finish_set(&mut self, pending: PendingSet, persisted: Result<(), StoreError>) -> (r:
        Result<(), CacheError>)
        requires
            old(self).wf(),
        ensures
            final(self).wf(),
            final(self).cfg() == old(self).cfg(),
            final(self)@ == after_commit(
                old(self)@,
                pending.key@,
                pending.entry.value@,
                pending.entry.expires_at,
                persisted is Ok,
            ),
            match persisted {
                Ok(()) => r is Ok,
                Err(e) => r == Err::<(), CacheError>(cache_error_of(e)),
            },
    {
        match persisted {
            Ok(()) => {
                self.store.set(pending.key, pending.entry.value, pending.entry.expires_at);
                Ok(())
            },
            Err(StoreError::Unavailable) => Err(CacheError::BackendUnavailable),
            Err(StoreError::WriteFailed) => Err(CacheError::BackendWriteFailed),
        }
    }
}

} // verus!
