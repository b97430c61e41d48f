use ghost_actor::example::MyError;
use ghost_actor::{GhostConfig, GhostError, InjectQueue, RpcChanError, RpcEnumError};

#[test]
fn default_config_has_channel_bound_32() {
    assert_eq!(32, GhostConfig::default().channel_bound);
}

#[test]
fn config_bound_can_be_tuned() {
    let mut c = GhostConfig::default();
    c.channel_bound = 8;
    assert_eq!(8, c.channel_bound);
}

#[test]
fn channel_failures_become_disconnected() {
    let (mut tx, rx) = futures::channel::mpsc::channel::<u8>(1);
    drop(rx);
    let e = tx.try_send(1).unwrap_err().into_send_error();
    assert_eq!(GhostError::Disconnected, GhostError::from(e));
    let (otx, orx) = futures::channel::oneshot::channel::<u8>();
    drop(otx);
    let canceled = futures::executor::block_on(orx).unwrap_err();
    assert_eq!(GhostError::Disconnected, GhostError::from(canceled));
}

#[test]
fn messages_become_other() {
    assert_eq!(GhostError::Other("boom".to_string()), GhostError::from("boom"));
    assert_eq!(GhostError::Other("bang".to_string()), GhostError::from("bang".to_string()));
    assert_eq!(GhostError::Other("x".to_string()), GhostError::other("x".to_string()));
    let () = GhostError::Timeout.into();
}

#[test]
fn my_error_wraps_ghost_error() {
    match MyError::from(GhostError::Timeout) {
        MyError::GhostError(e) => assert_eq!(GhostError::Timeout, e),
    }
}

#[test]
fn rpc_errors_convert() {
    match RpcChanError::from("nope") {
        RpcChanError::Other(m) => assert_eq!("nope", m),
        _ => panic!(),
    }
    match RpcEnumError::from("nope") {
        RpcEnumError::Other(m) => assert_eq!("nope", m),
        _ => panic!(),
    }
    let (mut tx, rx) = futures::channel::mpsc::channel::<u8>(1);
    drop(rx);
    let e = tx.try_send(1).unwrap_err().into_send_error();
    assert!(matches!(RpcChanError::from(e.clone()), RpcChanError::SendError(_)));
    assert!(matches!(RpcEnumError::from(e), RpcEnumError::SendError(_)));
    let () = RpcChanError::from("a").into();
    let () = RpcEnumError::from("b").into();
}

#[test]
fn inject_queue_drains_in_push_order() {
    let mut q = InjectQueue::new();
    q.push(1);
    q.push(2);
    q.push(3);
    assert_eq!(vec![1, 2, 3], q.drain());
    assert_eq!(Vec::<i32>::new(), q.drain());
    q.push(4);
    assert_eq!(vec![4], q.drain());
}

#[test]
fn error_messages() {
    assert_eq!("GhostActorDisconnected", GhostError::Disconnected.to_string());
    assert_eq!("Timeout", GhostError::Timeout.to_string());
    assert_eq!("boom", GhostError::from("boom").to_string());
}
