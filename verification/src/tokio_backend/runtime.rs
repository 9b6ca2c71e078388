//! Making the mailbox of a task-backed actor.

use crate::dispatch::receive_answer;
use crate::lifecycle::{answers, LoopAction, LoopEvent};
use crate::tokio_backend::addr::{TokioAddr, TokioEnvelope};
use crate::tokio_backend::channel::mailbox_channel;
use crate::tokio_backend::context::TokioContext;
use crate::traits::{Actor, ActorBase, ActorContext};
use vstd::prelude::*;

verus! {

/// How many messages a mailbox holds when no capacity is given.
pub const DEFAULT_MAILBOX_SIZE: usize = 64;

/// The largest mailbox a Tokio channel can have: its semaphore holds at most
/// `usize::MAX >> 3` permits.
pub const MAX_MAILBOX_SIZE: usize = usize::MAX >> 3;

/// What handing over the outcome of a receive does to a task-backed actor
/// and its context: a received envelope is delivered; nothing received
/// changes nothing.
pub open spec fn task_delivered<A>(
    received: Option<Box<dyn TokioEnvelope<A>>>,
    pre: A,
    ctx_pre: TokioContext<A>,
    post: A,
    ctx_post: TokioContext<A>,
) -> bool where A: ActorBase + Actor<TokioContext<A>> + Send + 'static {
    match received {
        Some(envelope) => envelope.delivers(pre, ctx_pre, post, ctx_post),
        None => post == pre && ctx_post == ctx_pre,
    }
}

/// The Tokio backend: one task per actor.
pub struct TokioRuntime;

impl TokioRuntime {
    /// The mailbox of a new actor: its address, and the receiving half that
    /// the actor's task takes messages from. A Tokio channel needs room for
    /// at least one message and for no more than `MAX_MAILBOX_SIZE`.
    pub fn open_mailbox<A>(capacity: usize) -> (r: (
        TokioAddr<A>,
        tokio::sync::mpsc::Receiver<Box<dyn TokioEnvelope<A>>>,
    )) where A: ActorBase + Actor<TokioContext<A>> + Send + 'static
        requires
            0 < capacity <= MAX_MAILBOX_SIZE,
    {
        let (tx, rx) = mailbox_channel::<Box<dyn TokioEnvelope<A>>>(capacity);
        (TokioAddr::from_sender(tx), rx)
    }

    /// Before a receive: replace the context with a fresh, running one when
    /// the run loop asks for it (after a veto), else leave it as it is.
    pub fn prepare_receive<A>(fresh_context: bool, ctx: &mut TokioContext<A>) where
        A: ActorBase + Actor<TokioContext<A>> + Send + 'static,

        ensures
            fresh_context ==> final(ctx).running(),
            !fresh_context ==> *final(ctx) == *old(ctx),
    {
        if fresh_context {
            *ctx = TokioContext::new();
        }
    }

    /// Hand what a receive gave to the actor: a message is delivered to the
    /// actor and answered with what the context then says; nothing received
    /// means the mailbox is closed and changes nothing.
    pub fn deliver<A>(
        received: Option<Box<dyn TokioEnvelope<A>>>,
        actor: &mut A,
        ctx: &mut TokioContext<A>,
    ) -> (e: LoopEvent) where A: ActorBase + Actor<TokioContext<A>> + Send + 'static
        ensures
            task_delivered(received, *old(actor), *old(ctx), *final(actor), *final(ctx)),
            e == receive_answer(received, final(ctx).running()),
            answers(LoopAction::Receive { fresh_context: false }, e),
    {
        match received {
            Some(envelope) => {
                envelope.handle(actor, ctx);
                LoopEvent::Handled { running: ctx.is_running() }
            },
            None => LoopEvent::NoMessage,
        }
    }
}

} // verus!
