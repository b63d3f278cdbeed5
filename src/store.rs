use vstd::prelude::*;

use dashmap::DashMap;

use crate::entry::CacheEntry;

verus! {

/// A stored entry as plain values: the payload and its optional absolute expiry.
pub type Slot = (String, Option<u64>);

#[verifier::external_type_specification]
#[verifier::external_body]
#[verifier::reject_recursive_types(K)]
#[verifier::reject_recursive_types(V)]
#[verifier::reject_recursive_types(S)]
pub struct ExDashMap<K, V, S>(DashMap<K, V, S>);

/// What a concurrent map of the entry store holds, key by key.
pub uninterp spec fn dash_contents(m: DashMap<String, Slot>) -> Map<Seq<char>, (Seq<char>, Option<u64>)>;

/// Relies on `DashMap::new`: a new map holds no entry.
#[verifier::external_body]
fn dash_new() -> (r: DashMap<String, Slot>)
    ensures
        dash_contents(r) =~= Map::empty(),
{
    DashMap::new()
}

/// Relies on `DashMap::insert`: the key now maps to the value, other keys are untouched.
#[verifier::external_body]
fn dash_insert(m: &mut DashMap<String, Slot>, key: String, slot: Slot)
    ensures
        dash_contents(*final(m)) == dash_contents(*old(m)).insert(key@, (slot.0@, slot.1)),
{
    m.insert(key, slot);
}

/// Relies on `DashMap::remove`: the key no longer maps to anything, other keys are untouched.
#[verifier::external_body]
fn dash_remove(m: &mut DashMap<String, Slot>, key: &str)
    ensures
        dash_contents(*final(m)) == dash_contents(*old(m)).remove(key@),
{
    m.remove(key);
}

/// Relies on `DashMap::get`: a copy of the value held under the key, if any.
#[verifier::external_body]
fn dash_get(m: &DashMap<String, Slot>, key: &str) -> (r: Option<Slot>)
    ensures
        match r {
            Some(s) => dash_contents(*m).contains_key(key@) && dash_contents(*m)[key@] == (
            s.0@,
            s.1,
            ),
            None => !dash_contents(*m).contains_key(key@),
        },
{
    m.get(key).map(|r| r.value().clone())
}

/// Relies on `DashMap::len`: the number of keys held, summed over the shards.
#[verifier::external_body]
fn dash_len(m: &DashMap<String, Slot>) -> (r: usize)
    ensures
        r == dash_contents(*m).len(),
{
    m.len()
}

/// The in-memory tier: a concurrent map from key to entry.
pub struct EntryStore {
    map: DashMap<String, Slot>,
}

impl View for EntryStore {
    type V = Map<Seq<char>, (Seq<char>, Option<u64>)>;

    closed spec fn view(&self) -> Self::V {
        dash_contents(self.map)
    }
}

impl EntryStore {
    /// Well-formed: finitely many keys.
    pub open spec fn wf(&self) -> bool {
        self@.dom().finite()
    }

    pub fn new() -> (r: EntryStore)
        ensures
            r.wf(),
            r@ == Map::<Seq<char>, (Seq<char>, Option<u64>)>::empty(),
    {
        EntryStore { map: dash_new() }
    }

    /// The entry held under `key`, if any, whether or not it has expired.
    pub fn get(&self, key: &str) -> (r: Option<CacheEntry>)
        ensures
            match r {
                Some(e) => self@.contains_key(key@) && self@[key@] == (e.value@, e.expires_at),
                None => !self@.contains_key(key@),
            },
    {
        match dash_get(&self.map, key) {
            Some(slot) => Some(CacheEntry { value: slot.0, expires_at: slot.1 }),
            None => None,
        }
    }

    /// Insert or replace the entry under `key`.
    pub fn set(&mut self, key: String, value: String, expires_at: Option<u64>)
        requires
            old(self).wf(),
        ensures
            final(self).wf(),
            final(self)@ == old(self)@.insert(key@, (value@, expires_at)),
    {
        dash_insert(&mut self.map, key, (value, expires_at));
    }

    /// Delete the entry under `key`, if any.
    pub fn remove(&mut self, key: &str)
        requires
            old(self).wf(),
        ensures
            final(self).wf(),
            final(self)@ == old(self)@.remove(key@),
    {
        dash_remove(&mut self.map, key);
    }

    /// Number of entries physically held, expired ones included.
    pub fn len(&self) -> (r: usize)
        ensures
            r == self@.len(),
    {
        dash_len(&self.map)
    }
}

} // verus!
