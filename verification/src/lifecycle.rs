//! The run loop of one actor, as a state machine.
//!
//! A backend owns the mailbox and the actor; it feeds the machine an event
//! (a hook returned, a message was handled, the mailbox had nothing) and gets
//! back the next thing to do. The order of hooks is the actor lifecycle:
//! `started`, then messages until the context stops or the mailbox closes,
//! then `stopping`. If `stopping` vetoes with `Running::Continue`, the stop
//! is cancelled: the actor stays alive on a fresh context and goes on taking
//! messages, and `stopping` is asked again whenever the loop would end. Only
//! when `stopping` answers `Running::Stop` comes `stopped`, and the loop ends.

use crate::traits::Running;
use vstd::prelude::*;

verus! {

/// Where the run loop of one actor stands; each phase names the last thing
/// the loop was told to do.
#[derive(Debug, Clone, Copy, PartialEq, Eq, Structural)]
pub enum Phase {
    /// Nothing has happened yet.
    Spawned,
    /// `started` was called.
    Starting,
    /// The loop waits on the mailbox for the next message.
    Serving,
    /// `stopping` was called; the actor may veto.
    Stopping,
    /// `stopped` was called.
    Finishing,
    /// The loop is over.
    Finished,
}

/// What a backend reports back to the loop.
#[derive(Debug, Clone, Copy, PartialEq, Eq, Structural)]
pub enum LoopEvent {
    /// The actor's task or thread is up.
    Begin,
    /// `started` returned; `running` is what the context then said.
    StartedReturned { running: bool },
    /// A message was taken and handled; `running` is what the context then said.
    Handled { running: bool },
    /// No message came: every address is gone and the mailbox is empty.
    NoMessage,
    /// `stopping` returned this decision.
    StoppingReturned { decision: Running },
    /// `stopped` returned.
    StoppedReturned,
}

/// What the loop tells a backend to do next.
#[derive(Debug, Clone, Copy, PartialEq, Eq, Structural)]
pub enum LoopAction {
    /// Call the `started` hook.
    CallStarted,
    /// Wait for the next message and handle it, after replacing the context
    /// with a fresh one when `fresh_context` holds.
    Receive { fresh_context: bool },
    /// Call the `stopping` hook, after marking the context as stopping when
    /// `mark_stopping` holds.
    CallStopping { mark_stopping: bool },
    /// Call the `stopped` hook.
    CallStopped,
    /// Leave the loop.
    Exit,
}

/// The transition table: the phase and action that follow an event, or
/// `None` for an event the phase does not expect.
pub open spec fn next(phase: Phase, event: LoopEvent) -> Option<(Phase, LoopAction)> {
    match phase {
        Phase::Spawned => match event {
            LoopEvent::Begin => Some((Phase::Starting, LoopAction::CallStarted)),
            _ => None,
        },
        Phase::Starting => match event {
            LoopEvent::StartedReturned { running } => if running {
                Some((Phase::Serving, LoopAction::Receive { fresh_context: false }))
            } else {
                Some((Phase::Stopping, LoopAction::CallStopping { mark_stopping: false }))
            },
            _ => None,
        },
        Phase::Serving => match event {
            LoopEvent::Handled { running } => if running {
                Some((Phase::Serving, LoopAction::Receive { fresh_context: false }))
            } else {
                Some((Phase::Stopping, LoopAction::CallStopping { mark_stopping: false }))
            },
            LoopEvent::NoMessage => Some(
                (Phase::Stopping, LoopAction::CallStopping { mark_stopping: true }),
            ),
            _ => None,
        },
        Phase::Stopping => match event {
            LoopEvent::StoppingReturned { decision } => match decision {
                Running::Continue => Some(
                    (Phase::Serving, LoopAction::Receive { fresh_context: true }),
                ),
                Running::Stop => Some((Phase::Finishing, LoopAction::CallStopped)),
            },
            _ => None,
        },
        Phase::Finishing => match event {
            LoopEvent::StoppedReturned => Some((Phase::Finished, LoopAction::Exit)),
            _ => None,
        },
        Phase::Finished => None,
    }
}

/// The phase an action leads into.
pub open spec fn phase_after(a: LoopAction) -> Phase {
    match a {
        LoopAction::CallStarted => Phase::Starting,
        LoopAction::Receive { .. } => Phase::Serving,
        LoopAction::CallStopping { .. } => Phase::Stopping,
        LoopAction::CallStopped => Phase::Finishing,
        LoopAction::Exit => Phase::Finished,
    }
}

/// The place of an action in the lifecycle: `started`, then the life of the
/// actor (taking messages and being asked to stop, any number of times),
/// then `stopped`, then leaving the loop.
pub open spec fn stage(a: LoopAction) -> int {
    match a {
        LoopAction::CallStarted => 0,
        LoopAction::Receive { .. } => 1,
        LoopAction::CallStopping { .. } => 1,
        LoopAction::CallStopped => 2,
        LoopAction::Exit => 3,
    }
}

/// The stage of the action that leads into a phase (`-1` before any).
pub open spec fn phase_stage(p: Phase) -> int {
    match p {
        Phase::Spawned => -1,
        Phase::Starting => 0,
        Phase::Serving => 1,
        Phase::Stopping => 1,
        Phase::Finishing => 2,
        Phase::Finished => 3,
    }
}

/// The steps that a fresh loop takes when fed these events in order: each
/// accepted event with the action it led to. An event the phase does not
/// expect is refused and changes nothing. Also the phase reached.
pub open spec fn run(events: Seq<LoopEvent>) -> (Phase, Seq<(LoopEvent, LoopAction)>)
    decreases events.len(),
{
    if events.len() == 0 {
        (Phase::Spawned, Seq::empty())
    } else {
        let (p, steps) = run(events.drop_last());
        match next(p, events.last()) {
            Some((q, a)) => (q, steps.push((events.last(), a))),
            None => (p, steps),
        }
    }
}

/// Whether the step at `j` calls `stopped`, right after a `stopping` call
/// that answered `Running::Stop`.
pub open spec fn stopped_after_agreed_stop(steps: Seq<(LoopEvent, LoopAction)>, j: int) -> bool {
    &&& steps[j].1 == LoopAction::CallStopped
    &&& 0 < j
    &&& steps[j - 1].1 is CallStopping
    &&& steps[j].0 == (LoopEvent::StoppingReturned { decision: Running::Stop })
}

/// Whether the step at `j` takes a message on a fresh context, right after
/// a `stopping` call that answered `Running::Continue`.
pub open spec fn resumed_after_veto(steps: Seq<(LoopEvent, LoopAction)>, j: int) -> bool {
    &&& steps[j].1 == (LoopAction::Receive { fresh_context: true })
    &&& 0 < j
    &&& steps[j - 1].1 is CallStopping
    &&& steps[j].0 == (LoopEvent::StoppingReturned { decision: Running::Continue })
}

/// What holds of every run from a fresh loop.
spec fn trace_invariant(p: Phase, steps: Seq<(LoopEvent, LoopAction)>) -> bool {
    &&& (steps.len() == 0 <==> p == Phase::Spawned)
    &&& steps.len() > 0 ==> steps[0].1 == LoopAction::CallStarted && phase_after(steps.last().1)
        == p
    &&& forall|i: int| 0 <= i < steps.len() ==> stage(#[trigger] steps[i].1) <= phase_stage(p)
    &&& forall|i: int, j: int|
        0 <= i < j < steps.len() ==> stage(#[trigger] steps[i].1) <= stage(#[trigger] steps[j].1)
    &&& forall|i: int, j: int|
        0 <= i < j < steps.len() && stage(#[trigger] steps[i].1) == stage(#[trigger] steps[j].1)
            ==> stage(steps[i].1) == 1
    &&& forall|j: int|
        0 <= j < steps.len() && #[trigger] steps[j].1 == LoopAction::CallStopped
            ==> stopped_after_agreed_stop(steps, j)
    &&& forall|j: int|
        0 <= j < steps.len() && #[trigger] steps[j].1 == (LoopAction::Receive {
            fresh_context: true,
        }) ==> resumed_after_veto(steps, j)
    &&& phase_stage(p) >= 2 ==> exists|i: int|
        0 <= i < steps.len() && #[trigger] steps[i].1 == LoopAction::CallStopped
}

proof fn lemma_next_moves_forward(p: Phase, e: LoopEvent)
    ensures
        next(p, e) matches Some((q, a)) ==> {
            &&& q == phase_after(a)
            &&& stage(a) == phase_stage(q)
            &&& phase_stage(p) <= phase_stage(q)
            &&& phase_stage(p) == phase_stage(q) ==> stage(a) == 1
            &&& (p == Phase::Spawned <==> a == LoopAction::CallStarted)
            &&& phase_stage(p) < 2 <= phase_stage(q) ==> a == LoopAction::CallStopped
            &&& a == LoopAction::CallStopped ==> p == Phase::Stopping && e == (
            LoopEvent::StoppingReturned { decision: Running::Stop })
            &&& a == (LoopAction::Receive { fresh_context: true }) ==> p == Phase::Stopping && e
                == (LoopEvent::StoppingReturned { decision: Running::Continue })
        },
{
}

proof fn lemma_run_invariant(events: Seq<LoopEvent>)
    ensures
        trace_invariant(run(events).0, run(events).1),
    decreases events.len(),
{
    if events.len() > 0 {
        let prev = events.drop_last();
        lemma_run_invariant(prev);
        let (p, steps) = run(prev);
        let e = events.last();
        lemma_next_moves_forward(p, e);
        if let Some((q, a)) = next(p, e) {
            let steps2 = steps.push((e, a));
            let n = steps.len() as int;
            assert(steps2[n] == (e, a));
            assert forall|i: int| 0 <= i < n implies steps2[i] == steps[i] by {}
            assert forall|i: int| 0 <= i < steps2.len() implies stage(#[trigger] steps2[i].1)
                <= phase_stage(q) by {
                if i < n {
                    assert(steps2[i] == steps[i]);
                }
            }
            assert forall|i: int, j: int| 0 <= i < j < steps2.len() implies stage(
                #[trigger] steps2[i].1,
            ) <= stage(#[trigger] steps2[j].1) by {
                assert(steps2[i] == steps[i]);
                if j < n {
                    assert(steps2[j] == steps[j]);
                }
            }
            assert forall|i: int, j: int|
                0 <= i < j < steps2.len() && stage(#[trigger] steps2[i].1) == stage(
                    #[trigger] steps2[j].1,
                ) implies stage(steps2[i].1) == 1 by {
                assert(steps2[i] == steps[i]);
                if j < n {
                    assert(steps2[j] == steps[j]);
                } else {
                    // the new action shares its stage with an older one, so the stage did not move
                    assert(stage(steps[i].1) <= phase_stage(p));
                }
            }
            if n > 0 {
                assert(steps2[n - 1] == steps[n - 1]);
                assert(steps2[0] == steps[0]);
            }
            assert forall|j: int|
                0 <= j < steps2.len() && #[trigger] steps2[j].1
                    == LoopAction::CallStopped implies stopped_after_agreed_stop(steps2, j) by {
                if j < n {
                    assert(stopped_after_agreed_stop(steps, j));
                    assert(steps2[j - 1] == steps[j - 1]);
                } else {
                    assert(steps[n - 1].1 is CallStopping);
                }
            }
            assert forall|j: int|
                0 <= j < steps2.len() && #[trigger] steps2[j].1 == (LoopAction::Receive {
                    fresh_context: true,
                }) implies resumed_after_veto(steps2, j) by {
                if j < n {
                    assert(resumed_after_veto(steps, j));
                    assert(steps2[j - 1] == steps[j - 1]);
                } else {
                    assert(steps[n - 1].1 is CallStopping);
                }
            }
            if phase_stage(q) >= 2 {
                if phase_stage(p) >= 2 {
                    let i = choose|i: int|
                        0 <= i < steps.len() && #[trigger] steps[i].1 == LoopAction::CallStopped;
                    assert(steps2[i] == steps[i]);
                } else {
                    assert(steps2[n].1 == LoopAction::CallStopped);
                }
            }
            assert(trace_invariant(q, steps2));
        }
    }
}

/// The lifecycle order: the first thing any run does is call `started`, and
/// its actions never go back in the order `started`, the actor's life
/// (messages and `stopping` calls), `stopped`, leaving the loop; `started`,
/// `stopped` and leaving the loop happen at most once.
pub proof fn lemma_lifecycle_order(events: Seq<LoopEvent>)
    ensures
        run(events).1.len() > 0 ==> run(events).1[0].1 == LoopAction::CallStarted,
        forall|i: int, j: int|
            0 <= i < j < run(events).1.len() ==> stage(#[trigger] run(events).1[i].1) <= stage(
                #[trigger] run(events).1[j].1,
            ),
        forall|i: int, j: int|
            0 <= i < j < run(events).1.len() && stage(#[trigger] run(events).1[i].1) == stage(
                #[trigger] run(events).1[j].1,
            ) ==> run(events).1[i].1 is Receive || run(events).1[i].1 is CallStopping,
{
    lemma_run_invariant(events);
    let steps = run(events).1;
    assert forall|i: int, j: int|
        0 <= i < j < steps.len() && stage(#[trigger] steps[i].1) == stage(#[trigger] steps[j].1)
            implies steps[i].1 is Receive || steps[i].1 is CallStopping by {
        assert(stage(steps[i].1) == 1);
    }
}

/// `stopped` is called only right after a `stopping` call that agreed to
/// stop: an actor that vetoes is never stopped on that answer.
pub proof fn lemma_stopped_only_after_agreed_stop(events: Seq<LoopEvent>)
    ensures
        forall|j: int|
            0 <= j < run(events).1.len() && #[trigger] run(events).1[j].1 == LoopAction::CallStopped
                ==> stopped_after_agreed_stop(run(events).1, j),
{
    lemma_run_invariant(events);
}

/// A veto keeps the actor alive: the step after a `stopping` call that
/// answered `Running::Continue` takes the next message on a fresh context,
/// and a fresh context is made only there.
pub proof fn lemma_veto_keeps_the_actor_alive(events: Seq<LoopEvent>)
    ensures
        next(Phase::Stopping, LoopEvent::StoppingReturned { decision: Running::Continue }) == Some(
            (Phase::Serving, LoopAction::Receive { fresh_context: true }),
        ),
        forall|j: int|
            0 <= j < run(events).1.len() && #[trigger] run(events).1[j].1 == (LoopAction::Receive {
                fresh_context: true,
            }) ==> resumed_after_veto(run(events).1, j),
{
    lemma_run_invariant(events);
}

/// A run whose loop is over began with `started`, called `stopped` right
/// after a `stopping` call that agreed to stop, and left the loop last.
pub proof fn lemma_finished_run_is_complete(events: Seq<LoopEvent>)
    requires
        run(events).0 == Phase::Finished,
    ensures
        run(events).1.len() > 0,
        run(events).1[0].1 == LoopAction::CallStarted,
        run(events).1.last().1 == LoopAction::Exit,
        exists|j: int|
            0 <= j < run(events).1.len() && #[trigger] stopped_after_agreed_stop(run(events).1, j),
{
    lemma_run_invariant(events);
    let steps = run(events).1;
    let j = choose|j: int| 0 <= j < steps.len() && #[trigger] steps[j].1 == LoopAction::CallStopped;
    assert(stopped_after_agreed_stop(steps, j));
}

/// Whether an event is an answer a backend may give to an action.
pub open spec fn answers(a: LoopAction, e: LoopEvent) -> bool {
    match a {
        LoopAction::CallStarted => e is StartedReturned,
        LoopAction::Receive { .. } => e is Handled || e is NoMessage,
        LoopAction::CallStopping { .. } => e is StoppingReturned,
        LoopAction::CallStopped => e is StoppedReturned,
        LoopAction::Exit => false,
    }
}

/// The loop never refuses the answer to what it asked for: after any action,
/// every answer a backend may give to it is accepted; and a fresh loop
/// accepts `Begin`. A backend that follows the loop is thus never stuck
/// before `Exit`.
pub proof fn lemma_answers_are_accepted(p: Phase, e: LoopEvent, answer: LoopEvent)
    ensures
        next(p, e) matches Some((q, a)) ==> (answers(a, answer) ==> next(q, answer) is Some),
        next(Phase::Spawned, LoopEvent::Begin) is Some,
{
}

/// The run loop of one actor.
pub struct ActorLoop {
    phase: Phase,
}

impl View for ActorLoop {
    type V = Phase;

    closed spec fn view(&self) -> Phase {
        self.phase
    }
}

impl ActorLoop {
    /// A loop for an actor that has not begun.
    pub fn new() -> (r: Self)
        ensures
            r@ == Phase::Spawned,
    {
        ActorLoop { phase: Phase::Spawned }
    }

    /// Where the loop stands.
    pub fn phase(&self) -> (p: Phase)
        ensures
            p == self@,
    {
        self.phase
    }

    /// Whether the loop is over.
    pub fn is_finished(&self) -> (b: bool)
        ensures
            b == (self@ == Phase::Finished),
    {
        match self.phase {
            Phase::Finished => true,
            _ => false,
        }
    }

    /// Feed one event; get the next action, or `None` (and no change) for an
    /// event the current phase does not expect.
    pub fn step(&mut self, event: LoopEvent) -> (r: Option<LoopAction>)
        ensures
            match next(old(self)@, event) {
                Some((q, a)) => final(self)@ == q && r == Some(a),
                None => final(self)@ == old(self)@ && r is None,
            },
            // once the context says the actor stopped, no further message is taken
            old(self)@ == Phase::Serving && event == (LoopEvent::Handled { running: false }) ==> r
                == Some(LoopAction::CallStopping { mark_stopping: false }),
            // a veto cancels the stop: the actor goes on taking messages, on a fresh context
            old(self)@ == Phase::Stopping && event == (LoopEvent::StoppingReturned {
                decision: Running::Continue,
            }) ==> r == Some(LoopAction::Receive { fresh_context: true }),
            // only an agreed stop leads to `stopped`
            r == Some(LoopAction::CallStopped) ==> old(self)@ == Phase::Stopping && event == (
            LoopEvent::StoppingReturned { decision: Running::Stop }),
    {
        let (p, a): (Phase, Option<LoopAction>) = match self.phase {
            Phase::Spawned => match event {
                LoopEvent::Begin => (Phase::Starting, Some(LoopAction::CallStarted)),
                _ => (Phase::Spawned, None),
            },
            Phase::Starting => match event {
                LoopEvent::StartedReturned { running } => if running {
                    (Phase::Serving, Some(LoopAction::Receive { fresh_context: false }))
                } else {
                    (Phase::Stopping, Some(LoopAction::CallStopping { mark_stopping: false }))
                },
                _ => (Phase::Starting, None),
            },
            Phase::Serving => match event {
                LoopEvent::Handled { running } => if running {
                    (Phase::Serving, Some(LoopAction::Receive { fresh_context: false }))
                } else {
                    (Phase::Stopping, Some(LoopAction::CallStopping { mark_stopping: false }))
                },
                LoopEvent::NoMessage => (
                    Phase::Stopping,
                    Some(LoopAction::CallStopping { mark_stopping: true }),
                ),
                _ => (Phase::Serving, None),
            },
            Phase::Stopping => match event {
                LoopEvent::StoppingReturned { decision } => match decision {
                    Running::Continue => (
                        Phase::Serving,
                        Some(LoopAction::Receive { fresh_context: true }),
                    ),
                    Running::Stop => (Phase::Finishing, Some(LoopAction::CallStopped)),
                },
                _ => (Phase::Stopping, None),
            },
            Phase::Finishing => match event {
                LoopEvent::StoppedReturned => (Phase::Finished, Some(LoopAction::Exit)),
                _ => (Phase::Finishing, None),
            },
            Phase::Finished => (Phase::Finished, None),
        };
        self.phase = p;
        a
    }
}

} // verus!
