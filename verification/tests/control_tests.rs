use ghost_actor::control::interrupt_outcome;
use ghost_actor::{GhostActorControl, GhostActorStateType, GhostError};

fn control() -> (
    GhostActorControl,
    futures::channel::mpsc::Receiver<()>,
    futures::channel::oneshot::Sender<()>,
) {
    let (tx, rx) = futures::channel::mpsc::channel::<()>(10);
    let (ended, ended_recv) = futures::channel::oneshot::channel::<()>();
    let c = GhostActorControl::new(tx, futures::future::FutureExt::shared(ended_recv));
    (c, rx, ended)
}

#[test]
fn new_control_is_active() {
    let (c, _rx, _ended) = control();
    assert!(c.ghost_actor_active());
    assert_eq!(GhostActorStateType::Active, c.state().get());
}

#[test]
fn control_is_inactive_once_shutdown_is_asked() {
    let (c, _rx, _ended) = control();
    c.state().set_pending_shutdown();
    assert!(!c.ghost_actor_active());
    c.state().set_shutdown();
    assert!(!c.ghost_actor_active());
}

#[test]
fn wake_sender_reaches_the_loop() {
    let (c, mut rx, _ended) = control();
    let mut wake = c.wake_sender();
    wake.try_send(()).unwrap();
    assert_eq!(Some(()), rx.try_next().unwrap());
}

#[test]
fn shutdown_signal_completes_when_the_loop_ends() {
    let (c, _rx, ended) = control();
    let signal = c.shutdown_signal();
    ended.send(()).unwrap();
    assert_eq!(Ok(()), futures::executor::block_on(signal));
}

#[test]
fn interrupt_outcome_is_always_ok() {
    assert_eq!(Ok::<(), GhostError>(()), interrupt_outcome(Ok(())));
    let (mut tx, rx) = futures::channel::mpsc::channel::<u8>(1);
    drop(rx);
    let e = tx.try_send(1).unwrap_err().into_send_error();
    assert_eq!(Ok::<(), GhostError>(()), interrupt_outcome(Err(e)));
}

#[test]
fn clones_share_the_run_state() {
    let (c, _rx, _ended) = control();
    let c2 = c.clone();
    c2.state().set_shutdown();
    assert!(!c.ghost_actor_active());
}
