use observable_maps::{Closed, ObserverMap};

use num::bigint::ToBigUint;
use std::str::FromStr;

#[derive(Copy, Clone, PartialEq, Eq, Debug)]
struct Tmp();

#[test]
fn insert_and_get() {
    let mut map = ObserverMap::new();

    map.insert("key".to_string(), 1u32).unwrap();
    assert_eq!(map.get("key".to_string()).unwrap(), 1);

    map.insert("key".to_string(), 2).unwrap();
    assert_eq!(map.get("key".to_string()).unwrap(), 2);

    map.insert("another_key".to_string(), 3).unwrap();
    assert_eq!(map.get("another_key".to_string()).unwrap(), 3);

    assert!(map.get("not_a_key".to_string()).is_none());
}

#[test]
fn value_is_arbitrary_structs_that_are_copy() {
    let mut map = ObserverMap::new();
    map.insert("is_copy".to_string(), Tmp()).unwrap();
    assert_eq!(map.get("is_copy".to_string()).unwrap(), Tmp());
}

#[test]
fn value_is_arbitrary_precision_decimal_type() {
    let pi = rust_decimal::Decimal::from_str("3.1415926535897932384").unwrap();
    let mut map = ObserverMap::new();
    map.insert("pi".to_string(), pi).unwrap();
    assert_eq!(map.get("pi".to_string()).unwrap(), pi);
}

#[test]
fn value_is_num_biguint_type() {
    let mut map = ObserverMap::new();
    map.insert("key".to_string(), 123.to_biguint()).unwrap();
    assert_eq!(map.get("key".to_string()).unwrap(), 123.to_biguint(),);
}

#[test]
fn thread_unsafe_channel_closed() {
    let mut map: ObserverMap<String, u32> = ObserverMap::new();

    let rx = map.observe("key".to_string());

    // Close the channel
    map.clear_waiters("key".to_string());

    assert_eq!(rx.recv().unwrap_err(), Closed);
}

#[test]
fn get_of_never_inserted_key_is_none() {
    let mut map: ObserverMap<String, u32> = ObserverMap::new();
    assert!(map.get("key".to_string()).is_none());

    // A pending waiter alone gives the key no value.
    let _rx = map.observe("key".to_string());
    assert!(map.get("key".to_string()).is_none());
}

#[test]
fn waiter_registered_before_insert_receives_it() {
    let mut map: ObserverMap<String, u32> = ObserverMap::new();

    let rx = map.observe("key".to_string());
    map.insert("key".to_string(), 7).unwrap();

    assert_eq!(rx.recv().unwrap(), 7);
}

#[test]
fn waiter_gets_next_value_not_current() {
    let mut map: ObserverMap<String, u32> = ObserverMap::new();

    map.insert("key".to_string(), 1).unwrap();
    let rx = map.observe("key".to_string());
    map.insert("key".to_string(), 2).unwrap();

    // The waiter was registered after the insert of 1: it sees only 2.
    assert_eq!(rx.recv().unwrap(), 2);
}

#[test]
fn four_waiters_one_insert_all_receive() {
    let mut map: ObserverMap<String, u8> = ObserverMap::new();

    let mut receivers = vec![];
    for _ in 1..=4 {
        receivers.push(map.observe("key".to_string()));
    }

    map.insert("key".to_string(), 1).unwrap();

    for rx in receivers {
        assert_eq!(rx.recv().unwrap(), 1);
    }

    // Delivery is exactly once per registration: a second insert finds no
    // waiter left and fails nothing.
    map.insert("key".to_string(), 2).unwrap();
}

#[test]
fn get_does_not_consume_a_pending_waiter() {
    let mut map: ObserverMap<String, u64> = ObserverMap::new();

    map.insert("key".to_string(), 1).unwrap();
    let rx = map.observe("key".to_string());

    for _ in 0..1000 {
        assert_eq!(map.get("key".to_string()).unwrap(), 1);
    }

    map.insert("key".to_string(), 2).unwrap();
    assert_eq!(rx.recv().unwrap(), 2);
}

#[test]
fn dropped_waiter_fails_insert_fail_fast() {
    let mut map: ObserverMap<String, u32> = ObserverMap::new();

    let rx1 = map.observe("key".to_string());
    let rx2 = map.observe("key".to_string());
    drop(rx2);

    // The second waiter's channel is closed: the insert fails and carries
    // the copy that could not be delivered.
    let e = map.insert("key".to_string(), 5).unwrap_err();
    assert_eq!(e.0, 5);

    // The value was stored even so, and the earlier waiter, notified before
    // the failure, still receives it.
    assert_eq!(map.get("key".to_string()).unwrap(), 5);
    assert_eq!(rx1.recv().unwrap(), 5);

    // The waiter list was kept as it was, so the closed channel fails the
    // next insert too.
    let e2 = map.insert("key".to_string(), 6).unwrap_err();
    assert_eq!(e2.0, 6);
}

#[test]
fn insert_with_no_waiters_never_fails() {
    let mut map: ObserverMap<String, u32> = ObserverMap::new();
    assert!(map.insert("key".to_string(), 1).is_ok());
    assert!(map.insert("key".to_string(), 2).is_ok());
}

#[test]
fn clear_waiters_keeps_value_and_other_keys() {
    let mut map: ObserverMap<String, u32> = ObserverMap::new();

    map.insert("key".to_string(), 1).unwrap();
    let rx = map.observe("key".to_string());
    let other = map.observe("other".to_string());

    map.clear_waiters("key".to_string());

    assert_eq!(map.get("key".to_string()).unwrap(), 1);
    assert_eq!(rx.recv().unwrap_err(), Closed);

    // A waiter on another key is untouched.
    map.insert("other".to_string(), 9).unwrap();
    assert_eq!(other.recv().unwrap(), 9);
}

#[test]
fn default_map_is_empty() {
    let map: ObserverMap<String, u32> = ObserverMap::default();
    assert!(map.get("key".to_string()).is_none());
}
