//! The traits that make up the actor contract, and the answer an actor gives
//! when it is asked to stop.

use vstd::prelude::*;

verus! {

/// Whether an actor wishes to keep running after its `stopping` hook.
#[derive(Debug, Clone, Copy, PartialEq, Eq, Structural)]
pub enum Running {
    /// The actor should continue running.
    Continue,
    /// The actor should stop.
    Stop,
}

impl Default for Running {
    /// An actor that says nothing stops.
    fn default() -> (r: Self)
        ensures
            r == Running::Stop,
    {
        Running::Stop
    }
}

/// A typed message; `Result` is what the actor hands back after handling it.
pub trait Message: 'static {
    /// The type returned by the actor after handling this message.
    type Result: 'static;
}

/// Marker implemented by every actor type; it breaks the circular bound
/// between `Actor` and `ActorContext`.
pub trait ActorBase: Sized + 'static {}

/// A call that tells a context the actor is to stop: `ActorContext::stop`,
/// or the backend's own `set_stopping`.
#[derive(Debug, Clone, Copy, PartialEq, Eq, Structural)]
pub enum ContextCall {
    /// `stop`, called by the actor.
    Stop,
    /// `set_stopping`, called by the run loop once the mailbox closed.
    SetStopping,
}

/// Whether a context is running after one such call: either call leaves it
/// not running.
pub open spec fn running_after_call(running: bool, call: ContextCall) -> bool {
    match call {
        ContextCall::Stop => false,
        ContextCall::SetStopping => false,
    }
}

/// Whether a context is running after a sequence of such calls, from the
/// state `running`.
pub open spec fn running_after(running: bool, calls: Seq<ContextCall>) -> bool
    decreases calls.len(),
{
    if calls.len() == 0 {
        running
    } else {
        running_after_call(running_after(running, calls.drop_last()), calls.last())
    }
}

/// A fresh context (which is running) reports running after a sequence of
/// `stop` and `set_stopping` calls exactly when the sequence is empty.
pub proof fn lemma_running_until_told_to_stop(calls: Seq<ContextCall>)
    ensures
        running_after(true, calls) == (calls.len() == 0),
{
}

/// The execution context handed to an actor's hooks and handlers.
pub trait ActorContext<A: ActorBase> {
    /// Whether the actor is still in the running state.
    spec fn running(&self) -> bool;

    /// Signal that the actor should stop after the current message.
    fn stop(&mut self)
        ensures
            !final(self).running(),
            final(self).running() == running_after_call(old(self).running(), ContextCall::Stop),
    ;

    /// Whether the actor is still in the running state.
    fn is_running(&self) -> (b: bool)
        ensures
            b == self.running(),
    ;
}

/// The trait every actor implements; its hooks all default to doing nothing.
pub trait Actor<C: ActorContext<Self>>: ActorBase {
    /// Called once, before the first message.
    fn started(&mut self, ctx: &mut C)
        default_ensures
            *final(self) == *old(self),
            *final(ctx) == *old(ctx),
    {
    }

    /// Called when the actor is about to stop; `Running::Continue` cancels
    /// the stop and the actor stays alive. By default the actor accepts the
    /// stop and nothing changes.
    fn stopping(&mut self, ctx: &mut C) -> (r: Running)
        default_ensures
            r == Running::Stop,
            *final(self) == *old(self),
            *final(ctx) == *old(ctx),
    {
        Running::Stop
    }

    /// Called once the actor has fully stopped.
    fn stopped(&mut self, ctx: &mut C)
        default_ensures
            *final(self) == *old(self),
            *final(ctx) == *old(ctx),
    {
    }
}

/// Implemented by an actor for each message type `M` it can process.
pub trait Handler<C, M>: Actor<C> where C: ActorContext<Self>, M: Message {
    /// What handling `msg` does: from actor `pre` and context `ctx_pre` to
    /// actor `post` and context `ctx_post`, answering `result`. Each
    /// implementation may say what its handler does; one that says nothing,
    /// as does every handler written outside Verus, promises nothing.
    open spec fn handles(pre: Self, msg: M, ctx_pre: C, post: Self, ctx_post: C, result: M::Result) -> bool {
        true
    }

    /// Process the message and return its result.
    fn handle(&mut self, msg: M, ctx: &mut C) -> (result: M::Result)
        ensures
            Self::handles(*old(self), msg, *old(ctx), *final(self), *final(ctx), result),
    ;
}

} // verus!
