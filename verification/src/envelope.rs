//! Type-erased message envelopes.
//!
//! An `Envelope` boxes a concrete message and, for a request, the sender of
//! its one-shot reply, so that one mailbox can carry any message an actor
//! handles as `Box<dyn EnvelopeProxy<A, C>>`.

use crate::std_channel::send_waiting;
use crate::traits::{ActorBase, ActorContext, Handler, Message};
use std::sync::mpsc::SyncSender;
use vstd::prelude::*;

verus! {

/// Delivers a boxed message to an actor without the caller knowing the
/// message's type.
pub trait EnvelopeProxy<A, C>: Send where A: ActorBase, C: ActorContext<A> {
    /// Whether the envelope still holds a message.
    spec fn holds_message(&self) -> bool;

    /// What delivering this envelope does: from actor `pre` and context
    /// `ctx_pre` to actor `post` and context `ctx_post`. For an envelope that
    /// holds a message, it is what the actor's handler for that message does.
    spec fn delivers(&self, pre: A, ctx_pre: C, post: A, ctx_post: C) -> bool;

    /// Deliver the message to `actor`, and route the result to the reply
    /// channel the envelope holds, if any. An empty envelope leaves the
    /// actor and the context as they were.
    fn handle(self: Box<Self>, actor: &mut A, ctx: &mut C)
        ensures
            self.delivers(*old(actor), *old(ctx), *final(actor), *final(ctx)),
            !self.holds_message() ==> *final(actor) == *old(actor) && *final(ctx) == *old(ctx),
    ;
}

/// A message `M` for actor `A`, with the reply sender of a request.
pub struct Envelope<A, C, M> where
    A: Handler<C, M> + Send,
    C: ActorContext<A> + Send,
    M: Message,
 {
    msg: Option<M>,
    tx: Option<SyncSender<M::Result>>,
    _phantom: core::marker::PhantomData<(A, C)>,
}

impl<A, C, M> Envelope<A, C, M> where
    A: Handler<C, M> + Send,
    C: ActorContext<A> + Send,
    M: Message,
    M::Result: Send,
 {
    /// The message the envelope holds.
    pub closed spec fn message(&self) -> Option<M> {
        self.msg
    }

    /// Where the result goes, for a request.
    pub closed spec fn reply_to(&self) -> Option<SyncSender<M::Result>> {
        self.tx
    }

    /// Wrap a message without a reply channel (fire-and-forget).
    pub fn new(msg: M) -> (r: Self)
        ensures
            r.message() == Some(msg),
            r.reply_to() is None,
    {
        Envelope { msg: Some(msg), tx: None, _phantom: core::marker::PhantomData }
    }

    /// Wrap a message with a reply channel so the sender can wait for the result.
    pub fn with_reply(msg: M, tx: SyncSender<M::Result>) -> (r: Self)
        ensures
            r.message() == Some(msg),
            r.reply_to() == Some(tx),
    {
        Envelope { msg: Some(msg), tx: Some(tx), _phantom: core::marker::PhantomData }
    }
}

impl<A, C, M> EnvelopeProxy<A, C> for Envelope<A, C, M> where
    A: Handler<C, M> + Send,
    C: ActorContext<A> + Send,
    M: Message + Send,
    M::Result: Send,
 {
    closed spec fn holds_message(&self) -> bool {
        self.msg is Some
    }

    open spec fn delivers(&self, pre: A, ctx_pre: C, post: A, ctx_post: C) -> bool {
        match self.message() {
            Some(msg) => exists|result: M::Result|
                #[trigger] A::handles(pre, msg, ctx_pre, post, ctx_post, result),
            None => post == pre && ctx_post == ctx_pre,
        }
    }

    /// A full envelope hands its message to the actor's handler for `M`:
    /// the actor and the context end as that handler leaves them.
    fn handle(self: Box<Self>, actor: &mut A, ctx: &mut C)
        ensures
            match self.message() {
                Some(msg) => exists|result: M::Result|
                    #[trigger] A::handles(*old(actor), msg, *old(ctx), *final(actor), *final(ctx), result),
                None => *final(actor) == *old(actor) && *final(ctx) == *old(ctx),
            },
    {
        let mut envelope = *self;
        if let Some(msg) = envelope.msg.take() {
            let result = actor.handle(msg, ctx);
            if let Some(tx) = envelope.tx.take() {
                // a requester that gave up waiting is no error of the actor's
                let _ = send_waiting(&tx, result);
            }
        }
    }
}

} // verus!
