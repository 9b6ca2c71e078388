//! Making the mailbox of a thread-backed actor.

use crate::dispatch::{call_hook, deliver, delivered, receive_answer};
use crate::envelope::EnvelopeProxy;
use crate::lifecycle::{answers, LoopAction, LoopEvent};
use crate::std_channel::{receive_waiting, sync_channel};
use crate::sync_backend::addr::SyncAddr;
use crate::sync_backend::context::SyncContext;
use crate::traits::{Actor, ActorBase, ActorContext};
use std::sync::mpsc::Receiver;
use vstd::prelude::*;

verus! {

/// How many messages a mailbox holds when no capacity is given.
pub const DEFAULT_MAILBOX_SIZE: usize = 64;

/// The synchronous backend: one OS thread per actor.
pub struct SyncRuntime;

impl SyncRuntime {
    /// The mailbox of a new actor: its address, and the receiving half that
    /// the actor's thread takes messages from. It holds up to `capacity`
    /// messages; with a capacity of zero each send waits for the actor.
    pub fn open_mailbox<A>(capacity: usize) -> (r: (
        SyncAddr<A>,
        Receiver<Box<dyn EnvelopeProxy<A, SyncContext<A>>>>,
    )) where A: ActorBase + Actor<SyncContext<A>> + Send + 'static {
        let (tx, rx) = sync_channel::<Box<dyn EnvelopeProxy<A, SyncContext<A>>>>(capacity);
        (SyncAddr::from_sender(tx), rx)
    }

    /// Before a receive: replace the context with a fresh, running one when
    /// the run loop asks for it (after a veto), else leave it as it is.
    pub fn prepare_receive<A>(fresh_context: bool, ctx: &mut SyncContext<A>) where
        A: ActorBase + Actor<SyncContext<A>> + Send + 'static,

        ensures
            fresh_context ==> final(ctx).running(),
            !fresh_context ==> *final(ctx) == *old(ctx),
    {
        if fresh_context {
            *ctx = SyncContext::new();
        }
    }

    /// Carry out one action of the run loop on the actor's own thread, and
    /// report the event that answers it; `None` for leaving the loop. A
    /// receive waits for the next message, on a fresh context when asked,
    /// and delivers what came to the actor.
    pub fn perform<A>(
        action: LoopAction,
        actor: &mut A,
        ctx: &mut SyncContext<A>,
        rx: &Receiver<Box<dyn EnvelopeProxy<A, SyncContext<A>>>>,
    ) -> (e: Option<LoopEvent>) where A: ActorBase + Actor<SyncContext<A>> + Send + 'static
        ensures
            action is Exit <==> e is None,
            e matches Some(ev) ==> answers(action, ev),
            action is CallStarted ==> e == Some(LoopEvent::StartedReturned { running: final(ctx).running() }),
            action is CallStopped ==> e == Some(LoopEvent::StoppedReturned),
            action matches LoopAction::Receive { fresh_context } ==> exists|
                received: Option<Box<dyn EnvelopeProxy<A, SyncContext<A>>>>,
                handed: SyncContext<A>,
            |
                {
                    &&& (fresh_context ==> handed.running())
                    &&& (!fresh_context ==> handed == *old(ctx))
                    &&& #[trigger] delivered(received, *old(actor), handed, *final(actor), *final(ctx))
                    &&& e == Some(receive_answer(received, final(ctx).running()))
                },
    {
        match action {
            LoopAction::Receive { fresh_context } => {
                let ghost actor0 = *actor;
                SyncRuntime::prepare_receive(fresh_context, ctx);
                let ghost handed = *ctx;
                let received = receive_waiting(rx);
                let ghost received0 = received;
                let e = deliver(received, actor, ctx);
                assert(delivered(received0, actor0, handed, *actor, *ctx));
                Some(e)
            },
            _ => call_hook(action, actor, ctx),
        }
    }
}

} // verus!
