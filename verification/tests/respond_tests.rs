use ghost_actor::GhostRespond;

#[test]
fn respond_delivers_the_value() {
    let (tx, mut rx) = futures::channel::oneshot::channel::<(u32, ())>();
    let r = GhostRespond::new(tx, "add_one");
    r.respond(43);
    assert_eq!(Some((43, ())), rx.try_recv().unwrap());
}

#[test]
fn r_is_respond() {
    let (tx, mut rx) = futures::channel::oneshot::channel::<(String, ())>();
    GhostRespond::new(tx, "echo").r("echo: test".to_string());
    assert_eq!(Some(("echo: test".to_string(), ())), rx.try_recv().unwrap());
}

#[test]
fn respond_to_a_gone_caller_does_not_panic() {
    let (tx, rx) = futures::channel::oneshot::channel::<(u32, ())>();
    drop(rx);
    GhostRespond::new(tx, "gone").respond(1);
}
