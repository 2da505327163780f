//! The thread-safe map: the single-owner map behind a reader/writer lock
//! and a shared, reference-counted handle. Every operation acquires the
//! lock only for its non-blocking step and releases it before returning, so
//! a blocked `wait` never holds the lock against the insert it waits for.
use vstd::prelude::*;

use crate::channel::Receiver;
use crate::map::ObserverMap;
use crate::{Closed, DeliveryFailure, ObservableMap};
use std::hash::Hash;
use std::sync::Arc;
use vstd::rwlock::{RwLock, RwLockPredicate};

verus! {

/// The lock on the shared map admits every map state: the single-owner map
/// keeps its own invariants.
pub struct SharedMapPred;

impl<K, V> RwLockPredicate<ObserverMap<K, V>> for SharedMapPred {
    open spec fn inv(self, v: ObserverMap<K, V>) -> bool {
        true
    }
}

/// Relies on std::sync::Arc::clone: the new handle points to the same
/// allocation: both handles hold the very same lock-protected map.
#[verifier::external_body]
fn arc_clone<T>(a: &Arc<T>) -> (r: Arc<T>)
    ensures
        r == *a,
{
    Arc::clone(a)
}

/// A shared handle to one lock-protected [`ObserverMap`]. Cloning the
/// handle shares the same underlying map; all handles' operations are
/// serialized by one reader/writer lock.
#[verifier::reject_recursive_types(V)]
pub struct ThreadSafeObserverMap<K, V> {
    inner: Arc<RwLock<ObserverMap<K, V>, SharedMapPred>>,
}

impl<K, V> ThreadSafeObserverMap<K, V> {
    /// A fresh, empty shared map with this first handle to it.
    pub fn new() -> (r: Self) {
        ThreadSafeObserverMap {
            inner: Arc::new(RwLock::new(ObserverMap::new(), Ghost(SharedMapPred))),
        }
    }

    /// True when the two handles share one underlying lock-protected map.
    pub closed spec fn shares_with(&self, other: &Self) -> bool {
        self.inner == other.inner
    }
}

impl<K, V> Default for ThreadSafeObserverMap<K, V> {
    /// A fresh, empty shared map.
    fn default() -> (r: Self) {
        ThreadSafeObserverMap::new()
    }
}

impl<K, V> Clone for ThreadSafeObserverMap<K, V> {
    /// One more handle to the same underlying map, not a copy of its
    /// contents: what is inserted through one handle is seen through all.
    fn clone(&self) -> (r: Self)
        ensures
            r.shares_with(self),
    {
        ThreadSafeObserverMap { inner: arc_clone(&self.inner) }
    }
}

impl<K: Hash + Eq, V: Clone> ThreadSafeObserverMap<K, V> {
    /// Store `value` under `key` in the shared map and deliver a copy to
    /// every waiter pending for `key`, under the lock. Fails fast when a
    /// waiter's channel is closed: the error carries the undelivered copy.
    pub fn insert(&mut self, key: K, value: V) -> (r: Result<(), DeliveryFailure<V>>)
        ensures
            final(self).shares_with(old(self)),
            r matches Err(e) ==> cloned(value, e.0),
    {
        let (mut map, handle) = self.inner.acquire_write();
        let r = map.insert(key, value);
        handle.release_write(map);
        r
    }

    /// A copy of the current value under `key` in the shared map, or `None`
    /// if no value was ever inserted. Takes the lock only to read: never
    /// blocks on a channel and never registers a waiter.
    pub fn get(&self, key: K) -> (r: Option<V>) {
        let handle = self.inner.acquire_read();
        let r = handle.borrow().get(key);
        handle.release_read();
        r
    }

    /// Register a fresh waiter for the next value inserted under `key`,
    /// under the lock, and return the receiving half of its channel. The
    /// lock is released before this returns: blocking on the receiver
    /// happens outside it.
    pub fn observe(&mut self, key: K) -> (r: Receiver<V>)
        ensures
            final(self).shares_with(old(self)),
    {
        let (mut map, handle) = self.inner.acquire_write();
        let r = map.observe(key);
        handle.release_write(map);
        r
    }

    /// Register a waiter for `key` under the lock, release the lock, then
    /// block outside it until the next value inserted under `key` arrives.
    /// Releasing before blocking is what lets another thread insert the
    /// awaited value; fails with [`Closed`] once the registration is
    /// discarded without a delivery.
    pub fn wait(&mut self, key: K) -> (r: Result<V, Closed>)
        ensures
            final(self).shares_with(old(self)),
    {
        self.observe(key).recv()
    }

    /// Discard every waiter pending for `key` without a delivery, under the
    /// lock: their channels close and each pending wait fed by them ends
    /// with [`Closed`]. The key's value is untouched.
    pub fn clear_waiters(&mut self, key: K)
        ensures
            final(self).shares_with(old(self)),
    {
        let (mut map, handle) = self.inner.acquire_write();
        map.clear_waiters(key);
        handle.release_write(map);
    }
}

impl<K: Hash + Eq, V: Clone> ObservableMap<K, V> for ThreadSafeObserverMap<K, V> {
    fn insert(&mut self, key: K, value: V) -> (r: Result<(), DeliveryFailure<V>>) {
        ThreadSafeObserverMap::insert(self, key, value)
    }

    fn get(&self, key: K) -> (r: Option<V>) {
        ThreadSafeObserverMap::get(self, key)
    }

    fn observe(&mut self, key: K) -> (r: Receiver<V>) {
        ThreadSafeObserverMap::observe(self, key)
    }

    fn wait(&mut self, key: K) -> (r: Result<V, Closed>) {
        ThreadSafeObserverMap::wait(self, key)
    }
}

} // verus!
