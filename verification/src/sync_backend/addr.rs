//! The address of a thread-backed actor: the sending half of its mailbox.

use crate::envelope::{Envelope, EnvelopeProxy};
use crate::error::{offer_result, reply_outcome, SendError};
use crate::std_channel::{clone_sender, receive_waiting, send_now, send_waiting, sync_channel};
use crate::sync_backend::context::SyncContext;
use crate::traits::{Actor, ActorBase, Handler, Message};
use std::sync::mpsc::SyncSender;
use vstd::prelude::*;

verus! {

/// A cloneable handle through which messages reach one actor.
#[verifier::reject_recursive_types(A)]
pub struct SyncAddr<A: ActorBase + Actor<SyncContext<A>> + Send> {
    tx: SyncSender<Box<dyn EnvelopeProxy<A, SyncContext<A>>>>,
}

impl<A: ActorBase + Actor<SyncContext<A>> + Send> Clone for SyncAddr<A> {
    /// Another handle on the same mailbox.
    fn clone(&self) -> (r: Self) {
        SyncAddr { tx: clone_sender(&self.tx) }
    }
}

impl<A: ActorBase + Actor<SyncContext<A>> + Send> SyncAddr<A> {
    /// The handle that sends into this mailbox.
    pub closed spec fn sender(&self) -> SyncSender<Box<dyn EnvelopeProxy<A, SyncContext<A>>>> {
        self.tx
    }

    /// An address that sends into the mailbox `tx`.
    pub fn from_sender(tx: SyncSender<Box<dyn EnvelopeProxy<A, SyncContext<A>>>>) -> (r: Self)
        ensures
            r.sender() == tx,
    {
        SyncAddr { tx }
    }

    /// Send a message and block the calling thread until the actor replies.
    /// A mailbox that is gone, or an actor that drops the request unanswered,
    /// gives `SendError::ActorStopped`; a full mailbox is waited on.
    pub fn send<M>(&self, msg: M) -> (r: Result<M::Result, SendError>) where
        A: Handler<SyncContext<A>, M>,
        M: Message + Send + 'static,
        M::Result: Send + 'static,

        ensures
            r is Ok || r == Err::<M::Result, SendError>(SendError::ActorStopped),
    {
        let (reply_tx, reply_rx) = sync_channel::<M::Result>(1);
        let envelope: Box<dyn EnvelopeProxy<A, SyncContext<A>>> = Box::new(
            Envelope::<A, SyncContext<A>, M>::with_reply(msg, reply_tx),
        );
        let delivered = send_waiting(&self.tx, envelope);
        let reply = if delivered {
            receive_waiting(&reply_rx)
        } else {
            None
        };
        reply_outcome(delivered, reply)
    }

    /// Fire-and-forget: offer the message without waiting. A full mailbox
    /// gives `SendError::MailboxFull`, one whose actor is gone
    /// `SendError::ActorStopped`.
    pub fn do_send<M>(&self, msg: M) -> (r: Result<(), SendError>) where
        A: Handler<SyncContext<A>, M>,
        M: Message + Send + 'static,
        M::Result: Send + 'static,
    {
        let envelope: Box<dyn EnvelopeProxy<A, SyncContext<A>>> = Box::new(
            Envelope::<A, SyncContext<A>, M>::new(msg),
        );
        let offer = send_now(&self.tx, envelope);
        offer_result(offer)
    }
}

} // verus!
