use ghost_actor::{
    ActorLoop, GhostActorStateType, GhostError, LoopAction, LoopEvent, LoopPhase,
};

const ACTIVE: LoopEvent = LoopEvent::StateRead(GhostActorStateType::Active);
const PENDING: LoopEvent = LoopEvent::StateRead(GhostActorStateType::PendingShutdown);
const SHUTDOWN: LoopEvent = LoopEvent::StateRead(GhostActorStateType::Shutdown);

#[test]
fn loop_starts_by_reading_the_state() {
    let (l, a) = ActorLoop::start();
    assert_eq!(LoopPhase::StateBeforeDrain, l.phase());
    assert_eq!(LoopAction::ReadState, a);
}

#[test]
fn loop_processes_an_event_then_stops_on_shutdown() {
    let (mut l, _) = ActorLoop::start();
    assert_eq!(LoopAction::DrainInjects, l.step(ACTIVE));
    assert_eq!(LoopAction::ReadState, l.step(LoopEvent::Drained(Ok(()))));
    assert_eq!(LoopAction::AwaitNext, l.step(ACTIVE));
    assert_eq!(LoopAction::ApplyEvent, l.step(LoopEvent::NextEvent(true)));
    assert_eq!(LoopAction::ReadState, l.step(LoopEvent::Applied));
    assert_eq!(LoopAction::RunShutdown, l.step(SHUTDOWN));
    assert_eq!(LoopPhase::ShuttingDown, l.phase());
    assert_eq!(LoopAction::Return(Ok(())), l.step(LoopEvent::ShutdownDone));
    assert_eq!(LoopPhase::Finished, l.phase());
    assert!(!l.accepts(&ACTIVE));
}

#[test]
fn pending_shutdown_processes_ready_events_then_stops() {
    let (mut l, _) = ActorLoop::start();
    assert_eq!(LoopAction::DrainInjects, l.step(PENDING));
    assert_eq!(LoopAction::ReadState, l.step(LoopEvent::Drained(Ok(()))));
    assert_eq!(LoopAction::TakeReady, l.step(PENDING));
    assert_eq!(LoopAction::ApplyEvent, l.step(LoopEvent::NextEvent(true)));
    assert_eq!(LoopAction::ReadState, l.step(LoopEvent::Applied));
    assert_eq!(LoopAction::DrainInjects, l.step(PENDING));
    assert_eq!(LoopAction::ReadState, l.step(LoopEvent::Drained(Ok(()))));
    assert_eq!(LoopAction::TakeReady, l.step(PENDING));
    assert_eq!(LoopAction::RunShutdown, l.step(LoopEvent::NextEvent(false)));
    assert_eq!(LoopAction::Return(Ok(())), l.step(LoopEvent::ShutdownDone));
}

#[test]
fn loop_stops_when_shut_down_after_draining() {
    let (mut l, _) = ActorLoop::start();
    l.step(ACTIVE);
    l.step(LoopEvent::Drained(Ok(())));
    assert_eq!(LoopAction::RunShutdown, l.step(SHUTDOWN));
}

#[test]
fn loop_stops_when_every_channel_closed() {
    let (mut l, _) = ActorLoop::start();
    l.step(ACTIVE);
    l.step(LoopEvent::Drained(Ok(())));
    l.step(ACTIVE);
    assert_eq!(LoopAction::RunShutdown, l.step(LoopEvent::NextEvent(false)));
}

#[test]
fn loop_returns_drain_failure_at_once() {
    let (mut l, _) = ActorLoop::start();
    l.step(ACTIVE);
    assert_eq!(
        LoopAction::Return(Err(GhostError::Disconnected)),
        l.step(LoopEvent::Drained(Err(GhostError::Disconnected)))
    );
    assert_eq!(LoopPhase::Finished, l.phase());
}

#[test]
fn loop_accepts_only_what_it_waits_for() {
    let (l, _) = ActorLoop::start();
    assert!(l.accepts(&SHUTDOWN));
    assert!(!l.accepts(&LoopEvent::Applied));
    assert!(!l.accepts(&LoopEvent::NextEvent(true)));
}
