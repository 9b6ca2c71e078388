//! The address of a task-backed actor, and the envelopes its mailbox carries.

use crate::error::{offer_result, SendError};
use crate::tokio_backend::channel::{clone_mailbox_sender, offer, send_reply};
use crate::tokio_backend::context::TokioContext;
use crate::traits::{Actor, ActorBase, Handler, Message};
use vstd::prelude::*;

verus! {

/// Delivers a boxed message to a task-backed actor without the caller
/// knowing the message's type.
pub trait TokioEnvelope<A>: Send where A: ActorBase + Actor<TokioContext<A>> + Send {
    /// Whether the envelope still holds a message.
    spec fn holds_message(&self) -> bool;

    /// What delivering this envelope does: from actor `pre` and context
    /// `ctx_pre` to actor `post` and context `ctx_post`. For an envelope that
    /// holds a message, it is what the actor's handler for that message does.
    spec fn delivers(&self, pre: A, ctx_pre: TokioContext<A>, post: A, ctx_post: TokioContext<A>) -> bool;

    /// Deliver the message to `actor`, and route the result to the reply
    /// channel the envelope holds, if any. An empty envelope leaves the
    /// actor and the context as they were.
    fn handle(self: Box<Self>, actor: &mut A, ctx: &mut TokioContext<A>)
        ensures
            self.delivers(*old(actor), *old(ctx), *final(actor), *final(ctx)),
            !self.holds_message() ==> *final(actor) == *old(actor) && *final(ctx) == *old(ctx),
    ;
}

/// A message `M` for actor `A`, with the reply sender of a request.
pub struct TokioEnvelopeInner<A, M> where
    A: ActorBase + Handler<TokioContext<A>, M> + Send,
    M: Message,
 {
    msg: Option<M>,
    tx: Option<tokio::sync::oneshot::Sender<M::Result>>,
    _actor: std::marker::PhantomData<A>,
}

impl<A, M> TokioEnvelopeInner<A, M> where
    A: ActorBase + Handler<TokioContext<A>, M> + Send,
    M: Message,
 {
    /// The message the envelope holds.
    pub closed spec fn message(&self) -> Option<M> {
        self.msg
    }

    /// Where the result goes, for a request.
    pub closed spec fn reply_to(&self) -> Option<tokio::sync::oneshot::Sender<M::Result>> {
        self.tx
    }

    /// Wrap a message without a reply channel (fire-and-forget).
    pub fn new(msg: M) -> (r: Self)
        ensures
            r.message() == Some(msg),
            r.reply_to() is None,
    {
        TokioEnvelopeInner { msg: Some(msg), tx: None, _actor: std::marker::PhantomData }
    }

    /// Wrap a message with the sender of its one-shot reply.
    pub fn with_reply(msg: M, tx: tokio::sync::oneshot::Sender<M::Result>) -> (r: Self)
        ensures
            r.message() == Some(msg),
            r.reply_to() == Some(tx),
    {
        TokioEnvelopeInner { msg: Some(msg), tx: Some(tx), _actor: std::marker::PhantomData }
    }
}

impl<A, M> TokioEnvelope<A> for TokioEnvelopeInner<A, M> where
    A: ActorBase + Handler<TokioContext<A>, M> + Send,
    M: Message + Send,
    M::Result: Send,
 {
    closed spec fn holds_message(&self) -> bool {
        self.msg is Some
    }

    open spec fn delivers(&self, pre: A, ctx_pre: TokioContext<A>, post: A, ctx_post: TokioContext<A>) -> bool {
        match self.message() {
            Some(msg) => exists|result: M::Result|
                #[trigger] A::handles(pre, msg, ctx_pre, post, ctx_post, result),
            None => post == pre && ctx_post == ctx_pre,
        }
    }

    /// A full envelope hands its message to the actor's handler for `M`:
    /// the actor and the context end as that handler leaves them.
    fn handle(self: Box<Self>, actor: &mut A, ctx: &mut TokioContext<A>)
        ensures
            match self.message() {
                Some(msg) => exists|result: M::Result|
                    #[trigger] A::handles(*old(actor), msg, *old(ctx), *final(actor), *final(ctx), result),
                None => *final(actor) == *old(actor) && *final(ctx) == *old(ctx),
            },
    {
        let mut envelope = *self;
        if let Some(msg) = envelope.msg.take() {
            let result = actor.handle(msg, ctx);
            if let Some(tx) = envelope.tx.take() {
                // a requester that gave up waiting is no error of the actor's
                let _ = send_reply(tx, result);
            }
        }
    }
}

/// A cloneable handle through which messages reach one task-backed actor.
#[verifier::reject_recursive_types(A)]
pub struct TokioAddr<A> where A: ActorBase + Actor<TokioContext<A>> + Send {
    tx: tokio::sync::mpsc::Sender<Box<dyn TokioEnvelope<A>>>,
}

impl<A> Clone for TokioAddr<A> where A: ActorBase + Actor<TokioContext<A>> + Send {
    /// Another handle on the same mailbox.
    fn clone(&self) -> (r: Self) {
        TokioAddr { tx: clone_mailbox_sender(&self.tx) }
    }
}

impl<A> TokioAddr<A> where A: ActorBase + Actor<TokioContext<A>> + Send {
    /// The handle that sends into this mailbox.
    pub closed spec fn sender_spec(&self) -> tokio::sync::mpsc::Sender<Box<dyn TokioEnvelope<A>>> {
        self.tx
    }

    /// An address that sends into the mailbox `tx`.
    pub fn from_sender(tx: tokio::sync::mpsc::Sender<Box<dyn TokioEnvelope<A>>>) -> (r: Self)
        ensures
            r.sender_spec() == tx,
    {
        TokioAddr { tx }
    }

    /// The handle that sends into this mailbox, for the waiting sends.
    pub fn sender(&self) -> (r: &tokio::sync::mpsc::Sender<Box<dyn TokioEnvelope<A>>>)
        ensures
            *r == self.sender_spec(),
    {
        &self.tx
    }

    /// Non-blocking, non-async fire-and-forget. A full mailbox gives
    /// `SendError::MailboxFull`, a closed one `SendError::ActorStopped`.
    /// Which of these comes back is what the mailbox says at the moment of
    /// the call (see `offer_result`); nothing more can be promised here.
    pub fn try_send<M>(&self, msg: M) -> (r: Result<(), SendError>) where
        A: Handler<TokioContext<A>, M>,
        M: Message + Send + 'static,
        M::Result: Send + 'static,
    {
        let envelope: Box<dyn TokioEnvelope<A>> = Box::new(TokioEnvelopeInner::<A, M>::new(msg));
        let o = offer(&self.tx, envelope);
        offer_result(o)
    }
}

} // verus!
