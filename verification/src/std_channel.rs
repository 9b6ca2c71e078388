//! The bounded channels of `std::sync::mpsc` that carry messages and replies
//! between threads. What such a channel answers depends on the thread at its
//! other end, so none of these items promises a result.

use crate::error::MailboxRejection;
use std::sync::mpsc::{Receiver, SyncSender};
use vstd::prelude::*;

verus! {

/// The sending half of a bounded channel of `std::sync::mpsc`.
#[verifier::external_type_specification]
#[verifier::external_body]
#[verifier::reject_recursive_types(T)]
pub struct ExSyncSender<T>(std::sync::mpsc::SyncSender<T>);

/// The receiving half of a channel of `std::sync::mpsc`.
#[verifier::external_type_specification]
#[verifier::external_body]
#[verifier::reject_recursive_types(T)]
pub struct ExReceiver<T>(std::sync::mpsc::Receiver<T>);

/// Calls `std::sync::mpsc::sync_channel`, which makes a channel that holds
/// up to `bound` messages (none for a bound of zero: each send then waits for
/// a receiver). Nothing is stated of the two halves.
#[verifier::external_body]
pub(crate) fn sync_channel<T>(bound: usize) -> (SyncSender<T>, Receiver<T>) {
    std::sync::mpsc::sync_channel(bound)
}

/// Calls `SyncSender::send`, which waits for room and then hands the value
/// over; `true` when it was handed over, `false` when the receiving half is
/// gone. Which one comes back depends on the other thread: nothing is stated.
#[verifier::external_body]
pub(crate) fn send_waiting<T>(tx: &SyncSender<T>, value: T) -> (delivered: bool) {
    tx.send(value).is_ok()
}

/// Calls `SyncSender::try_send`, which hands the value over only when there
/// is room right now; otherwise it says whether the channel was full or the
/// receiving half is gone. The outcome depends on the channel's state at the
/// moment of the call: nothing is stated.
#[verifier::external_body]
pub(crate) fn send_now<T>(tx: &SyncSender<T>, value: T) -> (r: Result<(), MailboxRejection>) {
    match tx.try_send(value) {
        Ok(()) => Ok(()),
        Err(std::sync::mpsc::TrySendError::Full(_)) => Err(MailboxRejection::Full),
        Err(std::sync::mpsc::TrySendError::Disconnected(_)) => Err(MailboxRejection::Disconnected),
    }
}

/// Calls `Receiver::recv`, which waits for the next value; `None` once every
/// sending half is gone and the channel is empty. Nothing is stated.
#[verifier::external_body]
pub(crate) fn receive_waiting<T>(rx: &Receiver<T>) -> (r: Option<T>) {
    rx.recv().ok()
}

/// Calls `SyncSender::clone`: another sending half of the same channel.
/// Channel identity is not modelled, so nothing is stated.
#[verifier::external_body]
pub(crate) fn clone_sender<T>(tx: &SyncSender<T>) -> SyncSender<T> {
    tx.clone()
}

} // verus!
