//! The channels of `tokio::sync` that carry messages and replies between
//! tasks. What such a channel answers depends on the task at its other end,
//! so these items promise no result.

use crate::error::MailboxRejection;
use vstd::prelude::*;

verus! {

/// The sending half of a bounded channel of `tokio::sync::mpsc`.
#[verifier::external_type_specification]
#[verifier::external_body]
#[verifier::reject_recursive_types(T)]
pub struct ExMpscSender<T>(tokio::sync::mpsc::Sender<T>);

/// The receiving half of a bounded channel of `tokio::sync::mpsc`.
#[verifier::external_type_specification]
#[verifier::external_body]
#[verifier::reject_recursive_types(T)]
pub struct ExMpscReceiver<T>(tokio::sync::mpsc::Receiver<T>);

/// The sending half of a channel of `tokio::sync::oneshot`.
#[verifier::external_type_specification]
#[verifier::external_body]
#[verifier::reject_recursive_types(T)]
pub struct ExOneshotSender<T>(tokio::sync::oneshot::Sender<T>);

/// Calls `tokio::sync::mpsc::channel`, which makes a channel that holds up
/// to `capacity` messages; it panics on a capacity of zero or above tokio's
/// largest semaphore (`usize::MAX >> 3` permits), which `requires` leaves
/// out. Nothing is stated of the two halves.
#[verifier::external_body]
pub(crate) fn mailbox_channel<T>(capacity: usize) -> (tokio::sync::mpsc::Sender<T>, tokio::sync::mpsc::Receiver<T>)
    requires
        0 < capacity <= crate::tokio_backend::runtime::MAX_MAILBOX_SIZE,
{
    tokio::sync::mpsc::channel(capacity)
}

/// Calls `tokio::sync::mpsc::Sender::try_send`, which hands the value over
/// only when a slot is free right now; otherwise it says whether the channel
/// was full or closed. The outcome depends on the channel's state at the
/// moment of the call: nothing is stated.
#[verifier::external_body]
pub(crate) fn offer<T>(tx: &tokio::sync::mpsc::Sender<T>, value: T) -> (r: Result<(), MailboxRejection>) {
    match tx.try_send(value) {
        Ok(()) => Ok(()),
        Err(tokio::sync::mpsc::error::TrySendError::Full(_)) => Err(MailboxRejection::Full),
        Err(tokio::sync::mpsc::error::TrySendError::Closed(_)) => Err(MailboxRejection::Disconnected),
    }
}

/// Calls `tokio::sync::mpsc::Sender::clone`: another sending half of the
/// same channel. Channel identity is not modelled, so nothing is stated.
#[verifier::external_body]
pub(crate) fn clone_mailbox_sender<T>(tx: &tokio::sync::mpsc::Sender<T>) -> tokio::sync::mpsc::Sender<T> {
    tx.clone()
}

/// Calls `tokio::sync::oneshot::Sender::send`; `true` when the value was
/// handed over, `false` when the receiving half is gone. Which one comes
/// back depends on the other task: nothing is stated.
#[verifier::external_body]
pub(crate) fn send_reply<T>(tx: tokio::sync::oneshot::Sender<T>, value: T) -> (delivered: bool) {
    tx.send(value).is_ok()
}

} // verus!
