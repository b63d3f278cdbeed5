use tiered_cache::engine::{
    Backend, CacheConfig, CacheEngine, CacheError, GetStep, ReadPolicy, SetStep, StoreError,
    WritePolicy,
};
use tiered_cache::entry::{expiry_for, CacheEntry};
use tiered_cache::persist::document_expiry_millis;
use tiered_cache::store::EntryStore;

fn config(write: WritePolicy, backend: Backend, read: ReadPolicy) -> CacheConfig {
    CacheConfig { write, backend, read }
}

fn memory_only() -> CacheEngine {
    CacheEngine::new(config(WritePolicy::WriteBehind, Backend::Disabled, ReadPolicy::MemoryOnly))
}

fn hit(step: GetStep) -> Option<String> {
    match step {
        GetStep::Hit(v) => Some(v),
        _ => None,
    }
}

#[test]
fn example_scenario_ttl_and_no_ttl() {
    let mut e = memory_only();
    assert!(matches!(e.set("foo".to_string(), "bar".to_string(), Some(1), 0), SetStep::Stored));
    assert_eq!(hit(e.get("foo", 0)), Some("bar".to_string()));
    assert!(matches!(e.get("foo", 1100), GetStep::Miss));
    assert!(matches!(e.set("baz".to_string(), "qux".to_string(), None, 0), SetStep::Stored));
    assert_eq!(hit(e.get("baz", 0)), Some("qux".to_string()));
    assert_eq!(hit(e.get("baz", 86_400_000)), Some("qux".to_string()));
}

#[test]
fn ttl_hit_up_to_deadline_and_removed_after() {
    let mut e = memory_only();
    e.set("k".to_string(), "v".to_string(), Some(5), 1_000);
    assert_eq!(hit(e.get("k", 5_999)), Some("v".to_string()));
    assert_eq!(hit(e.get("k", 6_000)), Some("v".to_string()));
    assert_eq!(e.len(), 1);
    assert!(matches!(e.get("k", 6_001), GetStep::Miss));
    assert_eq!(e.len(), 0);
    assert!(matches!(e.get("k", 6_002), GetStep::Miss));
}

#[test]
fn no_ttl_entry_never_expires() {
    let mut e = memory_only();
    e.set("k".to_string(), "v".to_string(), None, 10);
    assert_eq!(hit(e.get("k", u64::MAX)), Some("v".to_string()));
    assert_eq!(e.len(), 1);
}

#[test]
fn last_write_wins_value_and_ttl() {
    let mut e = memory_only();
    e.set("k".to_string(), "one".to_string(), None, 0);
    e.set("k".to_string(), "two".to_string(), Some(1), 0);
    assert_eq!(hit(e.get("k", 1_000)), Some("two".to_string()));
    assert!(matches!(e.get("k", 1_001), GetStep::Miss));
    let mut f = memory_only();
    f.set("k".to_string(), "one".to_string(), Some(1), 0);
    f.set("k".to_string(), "two".to_string(), None, 0);
    assert_eq!(hit(f.get("k", 5_000)), Some("two".to_string()));
}

#[test]
fn write_through_failure_leaves_store_unchanged() {
    let mut e = CacheEngine::new(config(
        WritePolicy::WriteThrough,
        Backend::OrderedStore,
        ReadPolicy::MemoryOnly,
    ));
    match e.set("k".to_string(), "v".to_string(), Some(3), 0) {
        SetStep::Await(pending, rec) => {
            assert_eq!(rec.key, "k");
            assert_eq!(rec.value, "v");
            assert_eq!(rec.ttl, Some(3));
            assert_eq!(pending.entry.expires_at, Some(3_000));
            assert!(matches!(e.get("k", 0), GetStep::Miss));
            let r = e.finish_set(pending, Err(StoreError::WriteFailed));
            assert_eq!(r, Err(CacheError::BackendWriteFailed));
        }
        _ => panic!("write-through must wait for the backend"),
    }
    assert!(matches!(e.get("k", 0), GetStep::Miss));
    assert_eq!(e.len(), 0);
}

#[test]
fn write_through_failure_keeps_previous_value() {
    let mut e = CacheEngine::new(config(
        WritePolicy::WriteThrough,
        Backend::DocumentStore,
        ReadPolicy::MemoryOnly,
    ));
    if let SetStep::Await(p, _) = e.set("k".to_string(), "old".to_string(), None, 0) {
        assert_eq!(e.finish_set(p, Ok(())), Ok(()));
    } else {
        panic!("write-through must wait for the backend");
    }
    assert_eq!(hit(e.get("k", 0)), Some("old".to_string()));
    if let SetStep::Await(p, _) = e.set("k".to_string(), "new".to_string(), None, 0) {
        assert_eq!(e.finish_set(p, Err(StoreError::Unavailable)), Err(CacheError::BackendUnavailable));
    } else {
        panic!("write-through must wait for the backend");
    }
    assert_eq!(hit(e.get("k", 0)), Some("old".to_string()));
}

#[test]
fn write_behind_is_readable_at_once() {
    let mut e = CacheEngine::new(config(
        WritePolicy::WriteBehind,
        Backend::DocumentStore,
        ReadPolicy::MemoryOnly,
    ));
    match e.set("k".to_string(), "v".to_string(), Some(0), 42) {
        SetStep::Dispatch(rec) => {
            assert_eq!(rec.key, "k");
            assert_eq!(rec.value, "v");
            assert_eq!(rec.ttl, Some(0));
        }
        _ => panic!("write-behind must dispatch the record"),
    }
    assert_eq!(hit(e.get("k", 42)), Some("v".to_string()));
}

#[test]
fn disjoint_keys_all_readable() {
    let mut e = memory_only();
    let n: u64 = 64;
    for i in 0..n {
        e.set(format!("key{}", i), format!("value{}", i), None, i);
    }
    assert_eq!(e.len(), 64);
    for i in 0..n {
        assert_eq!(hit(e.get(&format!("key{}", i), 1_000)), Some(format!("value{}", i)));
    }
}

#[test]
fn read_through_miss_asks_backend_and_caches_without_ttl() {
    let mut e = CacheEngine::new(config(
        WritePolicy::WriteBehind,
        Backend::OrderedStore,
        ReadPolicy::ReadThrough,
    ));
    let key = match e.get("k", 0) {
        GetStep::Fetch(k) => k,
        _ => panic!("read-through must ask the backend"),
    };
    assert_eq!(key, "k");
    assert_eq!(e.finish_fetch(key, Ok(Some("v".to_string()))), Some("v".to_string()));
    assert_eq!(hit(e.get("k", u64::MAX)), Some("v".to_string()));
    assert_eq!(e.finish_fetch("x".to_string(), Ok(None)), None);
    assert_eq!(e.finish_fetch("y".to_string(), Err(StoreError::Unavailable)), None);
    assert_eq!(e.len(), 1);
}

#[test]
fn read_through_off_reports_miss() {
    let mut e = CacheEngine::new(config(
        WritePolicy::WriteBehind,
        Backend::OrderedStore,
        ReadPolicy::MemoryOnly,
    ));
    assert!(matches!(e.get("k", 0), GetStep::Miss));
    let mut d = CacheEngine::new(config(
        WritePolicy::WriteBehind,
        Backend::Disabled,
        ReadPolicy::ReadThrough,
    ));
    assert!(matches!(d.get("k", 0), GetStep::Miss));
}

#[test]
fn expiry_arithmetic() {
    assert_eq!(expiry_for(500, Some(2)), Some(2_500));
    assert_eq!(expiry_for(500, None), None);
    assert_eq!(expiry_for(u64::MAX - 10, Some(1)), Some(u64::MAX));
    assert_eq!(expiry_for(0, Some(u64::MAX)), Some(u64::MAX));
    let entry = CacheEntry { value: "v".to_string(), expires_at: Some(10) };
    assert!(!entry.is_expired(10));
    assert!(entry.is_expired(11));
    let forever = CacheEntry { value: "v".to_string(), expires_at: None };
    assert!(!forever.is_expired(u64::MAX));
}

#[test]
fn document_expiry_arithmetic() {
    assert_eq!(document_expiry_millis(1_700_000_000_000, Some(60)), Some(1_700_000_060_000));
    assert_eq!(document_expiry_millis(-5_000, Some(2)), Some(-3_000));
    assert_eq!(document_expiry_millis(0, None), None);
    assert_eq!(document_expiry_millis(i64::MAX - 1, Some(1)), Some(i64::MAX));
    assert_eq!(document_expiry_millis(i64::MIN, Some(u64::MAX)), Some(i64::MAX));
}

#[test]
fn entry_store_operations() {
    let mut s = EntryStore::new();
    assert_eq!(s.len(), 0);
    s.set("a".to_string(), "1".to_string(), Some(7));
    s.set("b".to_string(), "2".to_string(), None);
    let a = s.get("a").unwrap();
    assert_eq!((a.value, a.expires_at), ("1".to_string(), Some(7)));
    s.set("a".to_string(), "3".to_string(), None);
    let a = s.get("a").unwrap();
    assert_eq!((a.value, a.expires_at), ("3".to_string(), None));
    assert_eq!(s.len(), 2);
    s.remove("a");
    assert!(s.get("a").is_none());
    s.remove("missing");
    assert_eq!(s.len(), 1);
}
