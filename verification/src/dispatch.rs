//! Carrying out what the run loop decides, on any backend: calling a hook
//! or handing a received message to the actor, and reporting the event that
//! answers the action.

use crate::envelope::EnvelopeProxy;
use crate::lifecycle::{answers, LoopAction, LoopEvent};
use crate::traits::{Actor, ActorContext};
use vstd::prelude::*;

verus! {

/// What handing over the outcome of a receive does to the actor and its
/// context: a received envelope is delivered; nothing received changes
/// nothing.
pub open spec fn delivered<A, C>(
    received: Option<Box<dyn EnvelopeProxy<A, C>>>,
    pre: A,
    ctx_pre: C,
    post: A,
    ctx_post: C,
) -> bool where A: Actor<C>, C: ActorContext<A> {
    match received {
        Some(envelope) => envelope.delivers(pre, ctx_pre, post, ctx_post),
        None => post == pre && ctx_post == ctx_pre,
    }
}

/// The event that answers a receive, given what it received and what the
/// context said afterwards.
pub open spec fn receive_answer<T>(received: Option<T>, running: bool) -> LoopEvent {
    match received {
        Some(_) => LoopEvent::Handled { running },
        None => LoopEvent::NoMessage,
    }
}

/// Before `stopping`: mark the context as stopping when the run loop asks
/// for it (the mailbox closed), else leave it as it is.
pub fn prepare_stopping<A, C>(mark_stopping: bool, ctx: &mut C) where
    A: Actor<C>,
    C: ActorContext<A>,

    ensures
        mark_stopping ==> !final(ctx).running(),
        !mark_stopping ==> *final(ctx) == *old(ctx),
{
    if mark_stopping {
        ctx.stop();
    }
}

/// Carry out an action that calls a hook (or leaves the loop), and report
/// the event that answers it; `None` for leaving the loop. A context to be
/// marked as stopping is marked, by `prepare_stopping`, before `stopping`
/// is called.
pub fn call_hook<A, C>(action: LoopAction, actor: &mut A, ctx: &mut C) -> (e: Option<LoopEvent>) where
    A: Actor<C>,
    C: ActorContext<A>,

    requires
        !(action is Receive),
    ensures
        action is Exit <==> e is None,
        e matches Some(ev) ==> answers(action, ev),
        action is CallStarted ==> e == Some(LoopEvent::StartedReturned { running: final(ctx).running() }),
        action is CallStopped ==> e == Some(LoopEvent::StoppedReturned),
        action is Exit ==> *final(actor) == *old(actor) && *final(ctx) == *old(ctx),
{
    match action {
        LoopAction::CallStarted => {
            actor.started(ctx);
            Some(LoopEvent::StartedReturned { running: ctx.is_running() })
        },
        LoopAction::CallStopping { mark_stopping } => {
            prepare_stopping::<A, C>(mark_stopping, ctx);
            let decision = actor.stopping(ctx);
            Some(LoopEvent::StoppingReturned { decision })
        },
        LoopAction::CallStopped => {
            actor.stopped(ctx);
            Some(LoopEvent::StoppedReturned)
        },
        LoopAction::Exit => None,
        LoopAction::Receive { .. } => None,
    }
}

/// Hand what a receive gave to the actor: a message is delivered to the
/// actor and answered with what the context then says; nothing received
/// means the mailbox is closed and changes nothing.
pub fn deliver<A, C>(received: Option<Box<dyn EnvelopeProxy<A, C>>>, actor: &mut A, ctx: &mut C) -> (e: LoopEvent) where
    A: Actor<C>,
    C: ActorContext<A>,

    ensures
        delivered(received, *old(actor), *old(ctx), *final(actor), *final(ctx)),
        e == receive_answer(received, final(ctx).running()),
        answers(LoopAction::Receive { fresh_context: false }, e),
{
    match received {
        Some(envelope) => {
            envelope.handle(actor, ctx);
            LoopEvent::Handled { running: ctx.is_running() }
        },
        None => LoopEvent::NoMessage,
    }
}

} // verus!
