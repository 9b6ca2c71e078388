//! The context a task-backed actor sees.

use crate::traits::{running_after_call, ActorBase, ActorContext, ContextCall};
use vstd::prelude::*;

verus! {

/// The execution context of an actor of the Tokio backend.
pub struct TokioContext<A: ActorBase + Send> {
    running: bool,
    _actor: std::marker::PhantomData<A>,
}

impl<A: ActorBase + Send> TokioContext<A> {
    /// A context in the running state.
    pub fn new() -> (r: Self)
        ensures
            r.running(),
    {
        TokioContext { running: true, _actor: std::marker::PhantomData }
    }

    /// Mark the actor as stopping, as the run loop does once its mailbox closes.
    pub fn set_stopping(&mut self)
        ensures
            !final(self).running(),
            final(self).running() == running_after_call(
                old(self).running(),
                ContextCall::SetStopping,
            ),
    {
        self.running = false;
    }
}

impl<A: ActorBase + Send> ActorContext<A> for TokioContext<A> {
    closed spec fn running(&self) -> bool {
        self.running
    }

    fn stop(&mut self) {
        self.running = false;
    }

    fn is_running(&self) -> (b: bool) {
        self.running
    }
}

} // verus!
