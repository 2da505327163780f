//! A map in which a reader can fetch the current value of a key or block
//! until the *next* value inserted under that key arrives, with any number
//! of independent waiters per key.
//!
//! [`ObserverMap`] is the single-owner map; [`ThreadSafeObserverMap`] wraps
//! it behind a reader/writer lock and a shared, reference-counted handle so
//! that many threads can insert, read and wait on one map.
use vstd::prelude::*;

mod channel;
mod map;
mod model;
mod shared_map;

pub use channel::Receiver;
pub use map::ObserverMap;
pub use model::ItemView;
pub use model::value_of;
pub use model::waiters_of;
pub use model::with_value;
pub use model::with_waiter;
pub use model::without_waiters;
pub use shared_map::ThreadSafeObserverMap;

verus! {

/// Error returned by `insert` when a pending waiter's channel was found
/// closed (its receiver dropped) at delivery time. Carries the copy of the
/// value that could not be delivered.
#[derive(Debug)]
pub struct DeliveryFailure<V>(pub V);

/// Error returned when a wait ends without a value because the waiter's
/// registration was discarded before any insert delivered one.
#[derive(Clone, Copy, Debug, PartialEq, Eq, Structural)]
pub struct Closed;

/// The operation contract shared by the single-owner map and the
/// thread-safe map.
pub trait ObservableMap<K, V: Clone>: Sized {
    /// Store `value` under `key`. Every waiter pending for `key` is
    /// delivered a copy of the value and deregistered; if one waiter's
    /// channel is closed, the insert fails fast and the error carries the
    /// undelivered copy. The value is stored even then.
    fn insert(&mut self, key: K, value: V) -> (r: Result<(), DeliveryFailure<V>>)
        ensures
            r matches Err(e) ==> cloned(value, e.0),
    ;

    /// A copy of the current value under `key`, or `None` if no value was
    /// ever inserted. Never blocks and never registers a waiter.
    fn get(&self, key: K) -> (r: Option<V>);

    /// Register a fresh waiter for the next value inserted under `key` and
    /// return the receiving half of its channel at once, without blocking.
    /// A waiter is always registered, whether or not `key` has a value.
    fn observe(&mut self, key: K) -> (r: Receiver<V>);

    /// Register a waiter for `key` and block until the next value inserted
    /// under `key` is delivered to it; fail with [`Closed`] once the
    /// registration is discarded without a delivery.
    fn wait(&mut self, key: K) -> (r: Result<V, Closed>);
}

} // verus!
