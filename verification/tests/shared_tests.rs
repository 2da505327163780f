use observable_maps::{Closed, ObservableMap, ObserverMap, ThreadSafeObserverMap};

use std::str::FromStr;

#[test]
fn thread_safe_channel_closed() {
    let mut map: ThreadSafeObserverMap<String, u64> = ThreadSafeObserverMap::new();

    let rx = map.observe("key".to_string());

    // Close the channel
    map.clear_waiters("key".to_string());

    assert_eq!(rx.recv().unwrap_err(), Closed);
}

#[test]
fn cloned_handle_shares_the_same_map() {
    let mut map: ThreadSafeObserverMap<String, u32> = ThreadSafeObserverMap::new();
    let mut other = map.clone();

    other.insert("key".to_string(), 1).unwrap();
    assert_eq!(map.get("key".to_string()).unwrap(), 1);

    map.insert("key".to_string(), 2).unwrap();
    assert_eq!(other.get("key".to_string()).unwrap(), 2);
}

#[test]
fn shared_waiter_receives_insert_from_other_handle() {
    let mut map: ThreadSafeObserverMap<String, u32> = ThreadSafeObserverMap::new();
    let mut writer = map.clone();

    let rx = map.observe("key".to_string());
    writer.insert("key".to_string(), 42).unwrap();

    assert_eq!(rx.recv().unwrap(), 42);
    assert_eq!(map.get("key".to_string()).unwrap(), 42);
}

#[test]
fn pi_is_stored_exactly_and_delivered_to_a_prior_waiter() {
    let pi = rust_decimal::Decimal::from_str("3.1415926535897932384").unwrap();
    let mut map: ThreadSafeObserverMap<String, rust_decimal::Decimal> =
        ThreadSafeObserverMap::new();

    // A waiter registered before any insert of "pi" ...
    let rx = map.observe("pi".to_string());

    map.insert("pi".to_string(), pi).unwrap();

    // ... receives the inserted value, and a read returns the identical one.
    assert_eq!(map.get("pi".to_string()).unwrap(), pi);
    assert_eq!(rx.recv().unwrap(), pi);
}

fn exercise_trait<M: ObservableMap<String, u32>>(map: &mut M) {
    map.insert("key".to_string(), 3).unwrap();
    assert_eq!(map.get("key".to_string()).unwrap(), 3);
    let rx = map.observe("key".to_string());
    map.insert("key".to_string(), 4).unwrap();
    assert_eq!(rx.recv().unwrap(), 4);
}

#[test]
fn both_maps_implement_the_shared_contract() {
    let mut single: ObserverMap<String, u32> = ObserverMap::new();
    exercise_trait(&mut single);

    let mut shared: ThreadSafeObserverMap<String, u32> = ThreadSafeObserverMap::new();
    exercise_trait(&mut shared);
}

#[test]
fn default_shared_map_is_empty() {
    let map: ThreadSafeObserverMap<String, u32> = ThreadSafeObserverMap::default();
    assert!(map.get("key".to_string()).is_none());
}
