use ghost_actor::event::{channel_send_outcome, send_outcome, CHANNEL_SEND_TIMEOUT_SECS};
use ghost_actor::{
    GhostActorControl, GhostChanSend, GhostControlHandler, GhostDispatch, GhostError, GhostEvent,
    GhostHandler, GhostSender,
};
use std::sync::Arc;

#[derive(Debug, PartialEq)]
struct AddOne(u32);

impl GhostEvent for AddOne {}

struct Counter {
    total: u32,
}

impl GhostDispatch<Counter> for AddOne {
    fn ghost_actor_dispatch(self, h: &mut Counter) {
        h.total += self.0;
    }
}

impl GhostHandler<AddOne> for Counter {}

impl GhostControlHandler for Counter {}

fn closed_send_error() -> futures::channel::mpsc::SendError {
    let (mut tx, rx) = futures::channel::mpsc::channel::<u8>(1);
    drop(rx);
    tx.try_send(1).unwrap_err().into_send_error()
}

fn elapsed() -> tokio::time::error::Elapsed {
    let rt = tokio::runtime::Builder::new_current_thread().enable_time().build().unwrap();
    let _guard = rt.enter();
    rt.block_on(tokio::time::timeout(
        std::time::Duration::from_millis(1),
        futures::future::pending::<()>(),
    ))
    .unwrap_err()
}

fn control() -> Arc<GhostActorControl> {
    let (tx, rx) = futures::channel::mpsc::channel::<()>(10);
    std::mem::forget(rx);
    let (_ended, ended_recv) = futures::channel::oneshot::channel::<()>();
    Arc::new(GhostActorControl::new(tx, futures::future::FutureExt::shared(ended_recv)))
}

#[test]
fn send_timeout_is_ten_seconds() {
    assert_eq!(10, CHANNEL_SEND_TIMEOUT_SECS);
}

#[test]
fn channel_send_outcome_maps_each_case() {
    assert_eq!(Ok(()), channel_send_outcome(Ok(Ok(()))));
    assert_eq!(Err(GhostError::Disconnected), channel_send_outcome(Ok(Err(closed_send_error()))));
    assert_eq!(Err(GhostError::Timeout), channel_send_outcome(Err(elapsed())));
}

#[test]
fn send_outcome_maps_each_case() {
    assert_eq!(Ok(()), send_outcome(Ok(())));
    assert_eq!(Err(GhostError::Disconnected), send_outcome(Err(closed_send_error())));
}

#[test]
fn handler_dispatches_events_to_itself() {
    let mut c = Counter { total: 1 };
    c.ghost_actor_dispatch(AddOne(41));
    assert_eq!(42, c.total);
}

#[test]
fn default_shutdown_callback_completes() {
    let c = Counter { total: 0 };
    futures::executor::block_on(c.handle_ghost_actor_shutdown());
}

#[test]
fn senders_compare_by_receiver() {
    let c = control();
    let (a1, _ra) = GhostSender::<AddOne>::new(c.clone());
    let (b1, _rb) = GhostSender::<AddOne>::new(c);
    let a2 = a1.clone();
    assert!(a1 == a2);
    assert!(a1 != b1);
}

#[test]
fn senders_hash_by_receiver() {
    let c = control();
    let (a1, _ra) = GhostSender::<AddOne>::new(c.clone());
    let (b1, _rb) = GhostSender::<AddOne>::new(c);
    let a2 = a1.clone();
    let mut set = std::collections::HashSet::new();
    assert!(set.insert(a1));
    assert!(set.insert(b1));
    assert!(!set.insert(a2));
    assert_eq!(2, set.len());
}

#[test]
fn ghost_chan_send_forwards_items() {
    let (mut tx, mut rx) = futures::channel::mpsc::channel::<u32>(4);
    assert_eq!(Ok(()), futures::executor::block_on(tx.ghost_chan_send(5)));
    assert_eq!(Some(5), rx.try_next().unwrap());
    drop(rx);
    assert_eq!(Err(GhostError::Disconnected), futures::executor::block_on(tx.ghost_chan_send(6)));
}

#[test]
fn ghost_sender_feeds_its_receiver() {
    let (s, r) = GhostSender::<AddOne>::new(control());
    let mut rx = r.into_inner();
    let mut tx = s.channel_sender().clone();
    tx.try_send(AddOne(42)).unwrap();
    assert_eq!(Some(AddOne(42)), rx.try_next().unwrap());
}

#[test]
fn ghost_sender_reaches_its_control() {
    let (s, _r) = GhostSender::<AddOne>::new(control());
    assert!(s.ghost_actor_control().ghost_actor_active());
    s.ghost_actor_control().state().set_shutdown();
    assert!(!s.ghost_actor_control().ghost_actor_active());
}
