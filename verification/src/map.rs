//! The single-owner map and its per-key records.
use vstd::prelude::*;

use crate::channel::{channel_send, new_channel, Receiver};
use crate::model::{value_of, waiters_of, with_value, with_waiter, without_waiters, ItemView};
use crate::{Closed, DeliveryFailure, ObservableMap};
use std::collections::HashMap;
use std::hash::Hash;
use std::sync::mpsc::SyncSender;
use vstd::std_specs::hash::obeys_key_model;

verus! {

broadcast use vstd::std_specs::hash::group_hash_axioms;

/// Per-key record: the last value inserted, if any, and the sending halves
/// of the pending waiters' channels, in registration order.
#[verifier::reject_recursive_types(V)]
pub(crate) struct Item<V> {
    value: Option<V>,
    observers: Vec<SyncSender<V>>,
}

impl<V> View for Item<V> {
    type V = ItemView<V>;

    closed spec fn view(&self) -> ItemView<V> {
        ItemView { value: self.value, waiters: self.observers@ }
    }
}

impl<V: Clone> Item<V> {
    /// The record a first insert creates: the value, no waiters.
    fn new(value: V) -> (r: Item<V>)
        ensures
            r@ == (ItemView { value: Some(value), waiters: Seq::<SyncSender<V>>::empty() }),
    {
        Item { value: Some(value), observers: Vec::new() }
    }

    /// The record a wait on a never-inserted key creates: no value, one
    /// waiter.
    fn from_observer(observer: SyncSender<V>) -> (r: Item<V>)
        ensures
            r@ == (ItemView { value: None::<V>, waiters: seq![observer] }),
    {
        let mut observers: Vec<SyncSender<V>> = Vec::new();
        observers.push(observer);
        proof {
            assert(observers@ =~= seq![observer]);
        }
        Item { value: None, observers }
    }

    /// Register one more waiter; the current value is untouched.
    fn add_observer(&mut self, observer: SyncSender<V>)
        ensures
            final(self)@.value == old(self)@.value,
            final(self)@.waiters == old(self)@.waiters.push(observer),
    {
        self.observers.push(observer);
    }

    /// Deliver a copy of `value` to every pending waiter, in registration
    /// order, then deregister them all. Fails fast: at the first waiter
    /// whose channel is closed, delivery stops, the error carries the copy
    /// that came back, and the waiter list is left as it was.
    fn notify(&mut self, value: &V) -> (r: Result<(), DeliveryFailure<V>>)
        ensures
            final(self)@.value == old(self)@.value,
            r is Ok ==> final(self)@.waiters == Seq::<SyncSender<V>>::empty(),
            r matches Err(e) ==> final(self)@.waiters == old(self)@.waiters && cloned(
                *value,
                e.0,
            ) && old(self)@.waiters.len() > 0,
            old(self)@.waiters.len() == 0 ==> r is Ok,
    {
        let n = self.observers.len();
        let mut i: usize = 0;
        while i < n
            invariant
                i <= n,
                n == self.observers.len(),
                *self == *old(self),
            decreases n - i,
        {
            let copy = value.clone();
            match channel_send(&self.observers[i], copy) {
                Ok(()) => {},
                Err(w) => {
                    return Err(DeliveryFailure(w));
                },
            }
            i = i + 1;
        }
        self.observers.clear();
        Ok(())
    }

    /// Replace the value, then deliver a copy of it to every pending waiter.
    /// The value is replaced even when a delivery fails.
    fn update(&mut self, value: V) -> (r: Result<(), DeliveryFailure<V>>)
        ensures
            final(self)@.value == Some(value),
            r is Ok ==> final(self)@.waiters == Seq::<SyncSender<V>>::empty(),
            r matches Err(e) ==> final(self)@.waiters == old(self)@.waiters && cloned(value, e.0)
                && old(self)@.waiters.len() > 0,
            old(self)@.waiters.len() == 0 ==> r is Ok,
    {
        let r = self.notify(&value);
        self.value = Some(value);
        r
    }

    /// Discard every pending waiter without a delivery; their channels
    /// close. The value is untouched.
    fn clear_observers(&mut self)
        ensures
            final(self)@.value == old(self)@.value,
            final(self)@.waiters == Seq::<SyncSender<V>>::empty(),
    {
        self.observers.clear();
    }
}

/// A map from key to per-key record, owned by one caller at a time: all
/// operations assume exclusive access. Its view is the model `Map` from key
/// to [`ItemView`].
#[verifier::reject_recursive_types(V)]
pub struct ObserverMap<K, V> {
    hashmap: HashMap<K, Item<V>>,
}

impl<K, V> View for ObserverMap<K, V> {
    type V = Map<K, ItemView<V>>;

    closed spec fn view(&self) -> Map<K, ItemView<V>> {
        Map::new(|k: K| self.hashmap@.contains_key(k), |k: K| self.hashmap@[k]@)
    }
}

impl<K, V> ObserverMap<K, V> {
    /// An empty map: no key has a value or a waiter.
    pub fn new() -> (r: Self)
        ensures
            r@ == Map::<K, ItemView<V>>::empty(),
    {
        let r = ObserverMap { hashmap: HashMap::new() };
        proof {
            assert(r@ =~= Map::<K, ItemView<V>>::empty());
        }
        r
    }
}

impl<K, V> Default for ObserverMap<K, V> {
    /// An empty map.
    fn default() -> (r: Self)
        ensures
            r@ == Map::<K, ItemView<V>>::empty(),
    {
        ObserverMap::new()
    }
}

impl<K: Hash + Eq, V: Clone> ObserverMap<K, V> {
    /// Store `value` under `key` and deliver a copy of it to every waiter
    /// pending for `key`, in registration order, deregistering them all.
    /// Fails fast when a waiter's channel is closed: the error carries the
    /// undelivered copy and the key's waiters stay registered; the value is
    /// stored even then. With no waiter pending, the insert cannot fail.
    pub fn insert(&mut self, key: K, value: V) -> (r: Result<(), DeliveryFailure<V>>)
        ensures
            r matches Err(e) ==> cloned(value, e.0),
            obeys_key_model::<K>() ==> {
                &&& value_of(final(self)@, key) == Some(value)
                &&& r is Ok ==> final(self)@ == with_value(old(self)@, key, value)
                &&& r is Err ==> final(self)@ == old(self)@.insert(
                    key,
                    (ItemView { value: Some(value), waiters: waiters_of(old(self)@, key) }),
                ) && waiters_of(old(self)@, key).len() > 0
                &&& waiters_of(old(self)@, key).len() == 0 ==> r is Ok
            },
    {
        match self.hashmap.remove(&key) {
            Some(mut item) => {
                let r = item.update(value);
                let ghost iv = item@;
                self.hashmap.insert(key, item);
                proof {
                    if obeys_key_model::<K>() {
                        assert(self@ =~~= old(self)@.insert(key, iv));
                    }
                }
                r
            },
            None => {
                self.hashmap.insert(key, Item::new(value));
                proof {
                    if obeys_key_model::<K>() {
                        assert(self@ =~~= with_value(old(self)@, key, value));
                    }
                }
                Ok(())
            },
        }
    }

    /// Return a copy of the current value under `key`, or `None` if no
    /// value was ever inserted. Never blocks, never registers a waiter, and
    /// changes nothing.
    pub fn get(&self, key: K) -> (r: Option<V>)
        ensures
            obeys_key_model::<K>() ==> match r {
                Some(v) => value_of(self@, key) matches Some(w) && cloned(w, v),
                None => value_of(self@, key) is None,
            },
    {
        match self.hashmap.get(&key) {
            Some(item) => match &item.value {
                Some(v) => Some(v.clone()),
                None => None,
            },
            None => None,
        }
    }

    /// Create a fresh single-slot channel, register its sending half as one
    /// more waiter for `key` (creating the key's record if the key is new),
    /// and return its receiving half at once, without blocking. A waiter is
    /// registered whether or not `key` has a value: it is delivered the
    /// *next* inserted value, never the current one.
    pub fn observe(&mut self, key: K) -> (r: Receiver<V>)
        ensures
            obeys_key_model::<K>() ==> {
                &&& exists|tx: SyncSender<V>| final(self)@ == with_waiter(old(self)@, key, tx)
                &&& value_of(final(self)@, key) == value_of(old(self)@, key)
                &&& waiters_of(final(self)@, key).len() == waiters_of(old(self)@, key).len() + 1
            },
    {
        let (tx, rx) = new_channel(1);
        let ghost txg = tx;
        match self.hashmap.remove(&key) {
            Some(mut item) => {
                item.add_observer(tx);
                self.hashmap.insert(key, item);
                proof {
                    if obeys_key_model::<K>() {
                        assert(self@ =~~= with_waiter(old(self)@, key, txg));
                    }
                }
            },
            None => {
                self.hashmap.insert(key, Item::from_observer(tx));
                proof {
                    if obeys_key_model::<K>() {
                        assert(self@ =~~= with_waiter(old(self)@, key, txg));
                    }
                }
            },
        }
        Receiver::from_raw(rx)
    }

    /// Register a waiter for `key`, then block until the next value
    /// inserted under `key` is delivered to it; fail with [`Closed`] once
    /// the registration is discarded without a delivery. On a single-owner
    /// map nobody else can insert while this call blocks, so it is the
    /// thread-safe wrapper that makes `wait` useful.
    pub fn wait(&mut self, key: K) -> (r: Result<V, Closed>)
        ensures
            obeys_key_model::<K>() ==> exists|tx: SyncSender<V>|
                final(self)@ == with_waiter(old(self)@, key, tx),
    {
        self.observe(key).recv()
    }

    /// Discard every waiter pending for `key` without a delivery: their
    /// channels close, and each pending wait fed by them ends with
    /// [`Closed`]. The key's value, and every other key, are untouched.
    pub fn clear_waiters(&mut self, key: K)
        ensures
            obeys_key_model::<K>() ==> final(self)@ == without_waiters(old(self)@, key),
    {
        match self.hashmap.remove(&key) {
            Some(mut item) => {
                item.clear_observers();
                self.hashmap.insert(key, item);
                proof {
                    if obeys_key_model::<K>() {
                        assert(self@ =~~= without_waiters(old(self)@, key));
                    }
                }
            },
            None => {
                proof {
                    if obeys_key_model::<K>() {
                        assert(self@ =~~= without_waiters(old(self)@, key));
                    }
                }
            },
        }
    }
}

impl<K: Hash + Eq, V: Clone> ObservableMap<K, V> for ObserverMap<K, V> {
    fn insert(&mut self, key: K, value: V) -> (r: Result<(), DeliveryFailure<V>>) {
        ObserverMap::insert(self, key, value)
    }

    fn get(&self, key: K) -> (r: Option<V>) {
        ObserverMap::get(self, key)
    }

    fn observe(&mut self, key: K) -> (r: Receiver<V>) {
        ObserverMap::observe(self, key)
    }

    fn wait(&mut self, key: K) -> (r: Result<V, Closed>) {
        ObserverMap::wait(self, key)
    }
}

} // verus!
