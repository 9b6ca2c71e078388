use oshima::lifecycle::{ActorLoop, LoopAction, LoopEvent, Phase};
use oshima::Running;

fn feed(events: &[LoopEvent]) -> (ActorLoop, Vec<Option<LoopAction>>) {
    let mut l = ActorLoop::new();
    let out = events.iter().map(|e| l.step(*e)).collect();
    (l, out)
}

#[test]
fn plain_run_until_mailbox_closes() {
    let (l, out) = feed(&[
        LoopEvent::Begin,
        LoopEvent::StartedReturned { running: true },
        LoopEvent::Handled { running: true },
        LoopEvent::NoMessage,
        LoopEvent::StoppingReturned { decision: Running::Stop },
        LoopEvent::StoppedReturned,
    ]);
    assert_eq!(
        out,
        vec![
            Some(LoopAction::CallStarted),
            Some(LoopAction::Receive { fresh_context: false }),
            Some(LoopAction::Receive { fresh_context: false }),
            Some(LoopAction::CallStopping { mark_stopping: true }),
            Some(LoopAction::CallStopped),
            Some(LoopAction::Exit),
        ]
    );
    assert!(l.is_finished());
    assert_eq!(l.phase(), Phase::Finished);
}

#[test]
fn self_stop_goes_straight_to_stopping() {
    let (l, out) = feed(&[
        LoopEvent::Begin,
        LoopEvent::StartedReturned { running: true },
        LoopEvent::Handled { running: false },
    ]);
    assert_eq!(out[2], Some(LoopAction::CallStopping { mark_stopping: false }));
    assert_eq!(l.phase(), Phase::Stopping);
}

#[test]
fn stop_in_started_skips_messages() {
    let (_, out) = feed(&[LoopEvent::Begin, LoopEvent::StartedReturned { running: false }]);
    assert_eq!(out[1], Some(LoopAction::CallStopping { mark_stopping: false }));
}

#[test]
fn veto_keeps_serving_and_asks_again() {
    let (l, out) = feed(&[
        LoopEvent::Begin,
        LoopEvent::StartedReturned { running: false },
        LoopEvent::StoppingReturned { decision: Running::Continue },
        LoopEvent::Handled { running: true },
        LoopEvent::NoMessage,
        LoopEvent::StoppingReturned { decision: Running::Continue },
        LoopEvent::NoMessage,
        LoopEvent::StoppingReturned { decision: Running::Stop },
        LoopEvent::StoppedReturned,
    ]);
    assert_eq!(
        out,
        vec![
            Some(LoopAction::CallStarted),
            Some(LoopAction::CallStopping { mark_stopping: false }),
            Some(LoopAction::Receive { fresh_context: true }),
            Some(LoopAction::Receive { fresh_context: false }),
            Some(LoopAction::CallStopping { mark_stopping: true }),
            Some(LoopAction::Receive { fresh_context: true }),
            Some(LoopAction::CallStopping { mark_stopping: true }),
            Some(LoopAction::CallStopped),
            Some(LoopAction::Exit),
        ]
    );
    assert!(l.is_finished());
}

#[test]
fn self_stop_after_veto_asks_stopping_again() {
    let (l, out) = feed(&[
        LoopEvent::Begin,
        LoopEvent::StartedReturned { running: true },
        LoopEvent::Handled { running: false },
        LoopEvent::StoppingReturned { decision: Running::Continue },
        LoopEvent::Handled { running: false },
    ]);
    assert_eq!(out[4], Some(LoopAction::CallStopping { mark_stopping: false }));
    assert_eq!(l.phase(), Phase::Stopping);
}

#[test]
fn unexpected_events_are_refused_without_change() {
    let mut l = ActorLoop::new();
    assert_eq!(l.step(LoopEvent::NoMessage), None);
    assert_eq!(l.phase(), Phase::Spawned);
    assert_eq!(l.step(LoopEvent::Begin), Some(LoopAction::CallStarted));
    assert_eq!(l.step(LoopEvent::Begin), None);
    assert_eq!(l.step(LoopEvent::Handled { running: true }), None);
    assert_eq!(l.phase(), Phase::Starting);
}

#[test]
fn finished_loop_refuses_everything() {
    let (mut l, _) = feed(&[
        LoopEvent::Begin,
        LoopEvent::StartedReturned { running: false },
        LoopEvent::StoppingReturned { decision: Running::Stop },
        LoopEvent::StoppedReturned,
    ]);
    assert!(l.is_finished());
    assert_eq!(l.step(LoopEvent::Begin), None);
    assert_eq!(l.step(LoopEvent::StoppedReturned), None);
    assert_eq!(l.phase(), Phase::Finished);
}
