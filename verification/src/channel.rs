//! The waiter channels: single-slot, single-use handoffs from the notifier
//! to one waiting caller, built on std's bounded mpsc channels. The calls
//! into std stand behind trusted wrappers; everything a channel delivers is
//! decided by the thread that inserts, not by the map's own logic.
use vstd::prelude::*;

use crate::Closed;
use std::sync::mpsc::SyncSender;

verus! {

#[verifier::external_type_specification]
#[verifier::external_body]
#[verifier::reject_recursive_types(T)]
pub struct ExSyncSender<T>(SyncSender<T>);

#[verifier::external_type_specification]
#[verifier::external_body]
#[verifier::reject_recursive_types(T)]
pub struct ExReceiver<T>(std::sync::mpsc::Receiver<T>);

/// The receiving half of a waiter's channel: a single-use handle on which
/// the next value inserted under the observed key arrives.
#[verifier::reject_recursive_types(V)]
pub struct Receiver<V> {
    rx: std::sync::mpsc::Receiver<V>,
}

impl<V> Receiver<V> {
    pub(crate) fn from_raw(rx: std::sync::mpsc::Receiver<V>) -> (r: Receiver<V>) {
        Receiver { rx }
    }

    /// Block until a value is delivered on this waiter's channel and return
    /// it; fail with [`Closed`] once the registration that feeds it was
    /// discarded without a delivery. Consumes the handle: a waiter is
    /// delivered to at most once.
    pub fn recv(self) -> (r: Result<V, Closed>) {
        channel_recv(&self.rx)
    }
}

/// Relies on std::sync::mpsc::sync_channel: a fresh bounded channel whose
/// two halves are connected to each other and to nothing else.
#[verifier::external_body]
pub(crate) fn new_channel<T>(bound: usize) -> (r: (SyncSender<T>, std::sync::mpsc::Receiver<T>)) {
    std::sync::mpsc::sync_channel(bound)
}

/// Relies on std::sync::mpsc::SyncSender::send: the value is handed to the
/// channel's buffer, blocking while the buffer is full, unless every
/// receiving half was dropped, in which case the value comes back in the
/// error.
#[verifier::external_body]
pub(crate) fn channel_send<T>(tx: &SyncSender<T>, value: T) -> (r: Result<(), T>)
    ensures
        r matches Err(v) ==> v == value,
{
    match tx.send(value) {
        Ok(()) => Ok(()),
        Err(std::sync::mpsc::SendError(v)) => Err(v),
    }
}

/// Relies on std::sync::mpsc::Receiver::recv: blocks until a value is in the
/// channel's buffer, and fails only once every sending half was dropped with
/// the buffer empty.
#[verifier::external_body]
fn channel_recv<T>(rx: &std::sync::mpsc::Receiver<T>) -> (r: Result<T, Closed>) {
    match rx.recv() {
        Ok(v) => Ok(v),
        Err(std::sync::mpsc::RecvError) => Err(Closed),
    }
}

} // verus!
