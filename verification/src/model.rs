//! The mathematical model of the map: what a caller can observe of each key,
//! and how each operation changes it.
use vstd::prelude::*;

use std::sync::mpsc::SyncSender;

verus! {

/// The observable state of one key: the last value inserted under it, if
/// any, and the sending halves of its pending waiters' channels, in
/// registration order.
#[verifier::ext_equal]
#[verifier::reject_recursive_types(V)]
pub ghost struct ItemView<V> {
    pub value: Option<V>,
    pub waiters: Seq<SyncSender<V>>,
}

/// The value observable for `key` in model `m`: the last value inserted
/// under `key`, or `None` if none was ever inserted.
pub open spec fn value_of<K, V>(m: Map<K, ItemView<V>>, key: K) -> Option<V> {
    if m.contains_key(key) {
        m[key].value
    } else {
        None
    }
}

/// The waiters pending for `key` in model `m`, in registration order.
pub open spec fn waiters_of<K, V>(m: Map<K, ItemView<V>>, key: K) -> Seq<SyncSender<V>> {
    if m.contains_key(key) {
        m[key].waiters
    } else {
        Seq::empty()
    }
}

/// The model after a successful insert of `value` under `key`: the key's
/// value is replaced and, every pending waiter having been delivered to,
/// its waiter list is cleared. Other keys are untouched.
pub open spec fn with_value<K, V>(m: Map<K, ItemView<V>>, key: K, value: V) -> Map<
    K,
    ItemView<V>,
> {
    m.insert(key, ItemView { value: Some(value), waiters: Seq::empty() })
}

/// The model after one more waiter `tx` is registered for `key`: the key's
/// value is untouched and `tx` is appended to its waiter list. Other keys
/// are untouched.
pub open spec fn with_waiter<K, V>(m: Map<K, ItemView<V>>, key: K, tx: SyncSender<V>) -> Map<
    K,
    ItemView<V>,
> {
    m.insert(key, ItemView { value: value_of(m, key), waiters: waiters_of(m, key).push(tx) })
}

/// The model after the waiters of `key` are discarded without a delivery:
/// their channels close, the key's value is untouched.
pub open spec fn without_waiters<K, V>(m: Map<K, ItemView<V>>, key: K) -> Map<K, ItemView<V>> {
    if m.contains_key(key) {
        m.insert(key, ItemView { value: value_of(m, key), waiters: Seq::empty() })
    } else {
        m
    }
}

/// Law: a key that was never inserted has no observable value, however many
/// waiters were registered for it. Registering a waiter changes no key's
/// value, so reads concurrent with pending registrations see the same values.
pub proof fn lemma_waiter_keeps_values<K, V>(m: Map<K, ItemView<V>>, key: K, tx: SyncSender<V>, k: K)
    ensures
        value_of(with_waiter(m, key, tx), k) == value_of(m, k),
{
}

/// Law: a fresh map observes no value for any key.
pub proof fn lemma_fresh_key_has_no_value<K, V>(key: K)
    ensures
        value_of(Map::<K, ItemView<V>>::empty(), key) is None,
{
}

/// Law: an insert makes its value the one observable for its key, and
/// deregisters all of that key's waiters, so each registration is delivered
/// to at most once.
pub proof fn lemma_insert_sets_value<K, V>(m: Map<K, ItemView<V>>, key: K, value: V)
    ensures
        value_of(with_value(m, key, value), key) == Some(value),
        waiters_of(with_value(m, key, value), key) == Seq::<SyncSender<V>>::empty(),
{
}

/// Law: of two inserts under one key, the later one decides the observable
/// value (last write wins).
pub proof fn lemma_last_write_wins<K, V>(m: Map<K, ItemView<V>>, key: K, v1: V, v2: V)
    ensures
        value_of(with_value(with_value(m, key, v1), key, v2), key) == Some(v2),
{
}

/// Law: an insert touches no other key's value or waiters.
pub proof fn lemma_insert_keeps_other_keys<K, V>(m: Map<K, ItemView<V>>, key: K, value: V, k: K)
    requires
        k != key,
    ensures
        value_of(with_value(m, key, value), k) == value_of(m, k),
        waiters_of(with_value(m, key, value), k) == waiters_of(m, k),
{
}

/// Law: registering a waiter appends it behind the waiters already pending
/// for its key, and touches no other key's waiters. Registration order is
/// kept, and it is the order of delivery.
pub proof fn lemma_waiter_registration_appends<K, V>(
    m: Map<K, ItemView<V>>,
    key: K,
    tx: SyncSender<V>,
    k: K,
)
    ensures
        waiters_of(with_waiter(m, key, tx), key) == waiters_of(m, key).push(tx),
        k != key ==> waiters_of(with_waiter(m, key, tx), k) == waiters_of(m, k),
{
}

/// Law: discarding the waiters of a key changes no key's value, and touches
/// no other key's waiters.
pub proof fn lemma_discard_keeps_values<K, V>(m: Map<K, ItemView<V>>, key: K, k: K)
    ensures
        value_of(without_waiters(m, key), k) == value_of(m, k),
        waiters_of(without_waiters(m, key), key) == Seq::<SyncSender<V>>::empty(),
        k != key ==> waiters_of(without_waiters(m, key), k) == waiters_of(m, k),
{
}

} // verus!
