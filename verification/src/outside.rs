use vstd::prelude::*;
use vstd::future::FutureAdditionalSpecFns;

verus! {

/// Sending half of a bounded channel of the futures crate.
#[verifier::external_type_specification]
#[verifier::external_body]
#[verifier::reject_recursive_types(T)]
pub struct ExMpscSender<T>(futures::channel::mpsc::Sender<T>);

/// Receiving half of a bounded channel of the futures crate.
#[verifier::external_type_specification]
#[verifier::external_body]
#[verifier::reject_recursive_types(T)]
pub struct ExMpscReceiver<T>(futures::channel::mpsc::Receiver<T>);

/// Error of a failed send on a bounded channel.
#[verifier::external_type_specification]
#[verifier::external_body]
pub struct ExSendError(futures::channel::mpsc::SendError);

/// Sending half of a one-shot channel of the futures crate.
#[verifier::external_type_specification]
#[verifier::external_body]
#[verifier::reject_recursive_types(T)]
pub struct ExOneshotSender<T>(futures::channel::oneshot::Sender<T>);

/// Error of a one-shot receiver whose sender went away.
#[verifier::external_type_specification]
#[verifier::external_body]
pub struct ExCanceled(futures::channel::oneshot::Canceled);

/// A boxed future that must be used.
#[verifier::external_type_specification]
#[verifier::external_body]
#[verifier::reject_recursive_types(T)]
pub struct ExMustBoxFuture<'a, T>(must_future::MustBoxFuture<'a, T>);

/// Receiving half of a one-shot channel of the futures crate.
#[verifier::external_type_specification]
#[verifier::external_body]
#[verifier::reject_recursive_types(T)]
pub struct ExOneshotReceiver<T>(futures::channel::oneshot::Receiver<T>);

/// A future of the futures crate whose output many handles can await.
#[verifier::external_type_specification]
#[verifier::external_body]
#[verifier::reject_recursive_types(Fut)]
pub struct ExShared<Fut: core::future::Future>(futures::future::Shared<Fut>);

/// The error of a timed-out tokio timeout.
#[verifier::external_type_specification]
#[verifier::external_body]
pub struct ExElapsed(tokio::time::error::Elapsed);

/// The future of a spawned actor task; await it or spawn it into an
/// executor for the actor to run.
pub type GhostActorDriver = must_future::MustBoxFuture<'static, ()>;

/// The signal that an actor task loop has ended: a shared one-shot
/// receiver, which completes when the loop sends on, or drops, its sender.
pub type ShutdownSignal = futures::future::Shared<futures::channel::oneshot::Receiver<()>>;

/// A ghost-actor future: a must-use boxed future of a `GhostResult`.
pub type GhostFuture<T> = must_future::MustBoxFuture<'static, crate::error::GhostResult<T>>;

/// Calls `futures::channel::mpsc::channel`, which makes a bounded channel
/// with `buffer` shared slots. That function panics unless
/// `buffer < usize::MAX >> 2`, which `requires` rules out. Nothing is
/// stated of the halves: that they are connected is an identity that no
/// value here shows.
#[verifier::external_body]
pub(crate) fn mpsc_channel<T>(buffer: usize) -> (pair: (
    futures::channel::mpsc::Sender<T>,
    futures::channel::mpsc::Receiver<T>,
))
    requires
        buffer < usize::MAX / 4,
{
    futures::channel::mpsc::channel(buffer)
}

/// Calls `Clone::clone` on a `futures::channel::mpsc::Sender`: a new
/// sender to the same receiver. Left unsaid: the source panics once the
/// number of live senders reaches the channel's maximum (about
/// `usize::MAX / 2` minus the buffer), a count that no value here holds.
#[verifier::external_body]
pub(crate) fn mpsc_sender_clone<T>(s: &futures::channel::mpsc::Sender<T>) -> (c:
    futures::channel::mpsc::Sender<T>) {
    s.clone()
}

/// Calls `futures::channel::mpsc::Sender::same_receiver`: whether two
/// senders feed the same receiver. That is a comparison of addresses, so
/// nothing is stated of the result.
#[verifier::external_body]
pub(crate) fn mpsc_same_receiver<T>(
    a: &futures::channel::mpsc::Sender<T>,
    b: &futures::channel::mpsc::Sender<T>,
) -> (same: bool) {
    a.same_receiver(b)
}

/// Calls `futures::channel::mpsc::Sender::hash_receiver`: feeds the
/// address of the receiver into `hasher`. Nothing is stated of the hasher.
#[verifier::external_body]
pub(crate) fn mpsc_hash_receiver<T, H: core::hash::Hasher>(
    s: &futures::channel::mpsc::Sender<T>,
    hasher: &mut H,
) {
    s.hash_receiver(hasher)
}

/// Calls `futures::channel::oneshot::Sender::send`. The source hands the
/// value back unchanged in `Err` when the receiver is gone; whether it is
/// gone depends on another task, so only that is stated.
#[verifier::external_body]
pub(crate) fn oneshot_send<T>(s: futures::channel::oneshot::Sender<T>, value: T) -> (r: Result<
    (),
    T,
>)
    ensures
        r matches Err(back) ==> back == value,
{
    s.send(value)
}

/// Calls `Clone::clone` on a `futures::future::Shared`: a new handle to the
/// same shared future. Nothing is stated of the handle.
#[verifier::external_body]
pub(crate) fn shutdown_signal_clone(s: &ShutdownSignal) -> (c: ShutdownSignal) {
    s.clone()
}

/// Builds, with `futures::sink::SinkExt::send`, a future that sends `item`
/// on `s`; `futures::future::FutureExt::map` hands the outcome to
/// `crate::event::send_outcome`, and `must_future::MustBoxFuture::new`
/// boxes it. The future yields success or `Disconnected`, the two outcomes
/// that `send_outcome` gives; which one depends on the receiver.
#[verifier::external_body]
pub(crate) fn send_borrowed<'a, T: 'a + Send>(
    s: &'a mut futures::channel::mpsc::Sender<T>,
    item: T,
) -> (fut: must_future::MustBoxFuture<'a, crate::error::GhostResult<()>>)
    ensures
        crate::error::is_send_result(fut@),
{
    let send = futures::sink::SinkExt::send(s, item);
    must_future::MustBoxFuture::new(futures::future::FutureExt::map(send, crate::event::send_outcome))
}

/// Calls `must_future::MustBoxFuture::new` on `futures::future::ready(())`,
/// a future that is done at once.
#[verifier::external_body]
pub(crate) fn ready_unit_future() -> (f: must_future::MustBoxFuture<'static, ()>) {
    must_future::MustBoxFuture::new(futures::future::ready(()))
}

} // verus!
