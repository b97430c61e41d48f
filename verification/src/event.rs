use vstd::prelude::*;
use std::sync::Arc;
use crate::control::GhostActorControl;
use crate::error::{GhostError, GhostResult, is_send_result};
use vstd::future::FutureAdditionalSpecFns;
use crate::outside::{
    mpsc_channel, mpsc_hash_receiver, mpsc_same_receiver, mpsc_sender_clone, ready_unit_future,
    send_borrowed,
};

verus! {

/// Seconds that sending one event on an actor channel may take, waiting
/// for the actor to catch up, before it gives `Timeout`.
pub const CHANNEL_SEND_TIMEOUT_SECS: u64 = 10;

/// Shared slots of the channel that `GhostSender::new` makes.
pub const GHOST_SENDER_CHANNEL_BOUND: usize = 10;

/// What a timed send on an actor channel comes to: success, `Disconnected`
/// when the channel refused the event, `Timeout` when time ran out.
pub fn channel_send_outcome(
    r: Result<Result<(), futures::channel::mpsc::SendError>, tokio::time::error::Elapsed>,
) -> (out: GhostResult<()>)
    ensures
        out == (match r {
            Ok(Ok(())) => Ok::<(), GhostError>(()),
            Ok(Err(_)) => Err(GhostError::Disconnected),
            Err(_) => Err(GhostError::Timeout),
        }),
{
    match r {
        Ok(Ok(())) => Ok(()),
        Ok(Err(e)) => Err(GhostError::from(e)),
        Err(_) => Err(GhostError::Timeout),
    }
}

/// What an untimed send on a channel comes to: success, or `Disconnected`.
pub fn send_outcome(r: Result<(), futures::channel::mpsc::SendError>) -> (out: GhostResult<()>)
    ensures
        out == (match r {
            Ok(()) => Ok::<(), GhostError>(()),
            Err(_) => Err(GhostError::Disconnected),
        }),
{
    match r {
        Ok(()) => Ok(()),
        Err(e) => Err(GhostError::from(e)),
    }
}

/// A message that can be sent over an actor channel.
pub trait GhostEvent: 'static + Send + Sized {
}

/// An event that knows how to dispatch itself to a handler.
pub trait GhostDispatch<H>: GhostEvent {
    /// How processing this event takes a handler from `before` to `after`.
    /// An event type says it of its own handling; one that does not says
    /// nothing (`true`).
    open spec fn dispatch_spec(self, before: H, after: H) -> bool {
        true
    }

    /// Process this event with the given handler.
    fn ghost_actor_dispatch(self, h: &mut H)
        ensures
            self.dispatch_spec(*old(h), *final(h)),
    ;
}

/// An item that can handle incoming events of type `D`.
pub trait GhostHandler<D: GhostDispatch<Self>>: 'static + Send + Sized {
    /// Process an event with this handler: the event dispatches itself,
    /// so the handler changes as the event's `dispatch_spec` says.
    fn ghost_actor_dispatch(&mut self, d: D)
        ensures
            d.dispatch_spec(*old(self), *final(self)),
    {
        d.ghost_actor_dispatch(self);
    }
}

/// Control callbacks that every handler has; the provided ones do nothing.
pub trait GhostControlHandler: 'static + Send + Sized {
    /// Called when the actor task loop ends, for cleanup.
    fn handle_ghost_actor_shutdown(self) -> (f: must_future::MustBoxFuture<'static, ()>) {
        ready_unit_future()
    }
}

/// The provided sender: a channel to the actor and the actor's control.
#[verifier::reject_recursive_types(E)]
pub struct GhostSender<E: GhostEvent>(
    futures::channel::mpsc::Sender<E>,
    Arc<GhostActorControl>,
);

/// The receiving side that `GhostSender::new` makes.
#[verifier::reject_recursive_types(E)]
pub struct GhostReceiver<E: GhostEvent>(Box<futures::channel::mpsc::Receiver<E>>);

impl<E: GhostEvent> GhostReceiver<E> {
    /// The channel receiver this value holds.
    pub closed spec fn receiver(&self) -> futures::channel::mpsc::Receiver<E> {
        *self.0
    }

    /// The channel receiver inside.
    pub fn into_inner(self) -> (r: futures::channel::mpsc::Receiver<E>)
        ensures
            r == self.receiver(),
    {
        *self.0
    }
}

impl<E: GhostEvent> GhostSender<E> {
    /// The control this sender reaches.
    pub closed spec fn control(&self) -> GhostActorControl {
        *self.1
    }

    /// The channel this sender feeds.
    pub closed spec fn channel(&self) -> futures::channel::mpsc::Sender<E> {
        self.0
    }

    /// The channel sender inside, on which events reach the actor.
    pub fn channel_sender(&self) -> (s: &futures::channel::mpsc::Sender<E>)
        ensures
            *s == self.channel(),
    {
        &self.0
    }

    /// The control of the actor this sender reaches.
    pub fn ghost_actor_control(&self) -> (c: &GhostActorControl)
        ensures
            *c == self.control(),
    {
        &self.1
    }

    /// A sender and receiver over a new channel with
    /// `GHOST_SENDER_CHANNEL_BOUND` shared slots; the sender controls the
    /// actor through `ghost_actor_control`.
    pub fn new(ghost_actor_control: Arc<GhostActorControl>) -> (pair: (GhostSender<E>, GhostReceiver<E>))
        ensures
            pair.0.control() == *ghost_actor_control,
    {
        let (s, r) = mpsc_channel(GHOST_SENDER_CHANNEL_BOUND);
        (GhostSender(s, ghost_actor_control), GhostReceiver(Box::new(r)))
    }
}

impl<E: GhostEvent> Clone for GhostSender<E> {
    fn clone(&self) -> (c: GhostSender<E>)
        ensures
            c.control() == self.control(),
    {
        GhostSender(mpsc_sender_clone(&self.0), self.1.clone())
    }
}

impl<E: GhostEvent> PartialEq for GhostSender<E> {
    /// Two senders are equal when they feed the same receiver.
    fn eq(&self, o: &GhostSender<E>) -> (same: bool) {
        mpsc_same_receiver(&self.0, &o.0)
    }
}

impl<E: GhostEvent> vstd::std_specs::cmp::PartialEqSpecImpl for GhostSender<E> {
    open spec fn obeys_eq_spec() -> bool {
        false
    }

    open spec fn eq_spec(&self, other: &GhostSender<E>) -> bool {
        true
    }
}

impl<E: GhostEvent> Eq for GhostSender<E> {
}

impl<E: GhostEvent> core::hash::Hash for GhostSender<E> {
    /// Hashes the receiver that this sender feeds.
    fn hash<H: core::hash::Hasher>(&self, state: &mut H) {
        mpsc_hash_receiver(&self.0, state);
    }
}

/// A channel of the old `ghost_chan` kind: forwards items, untimed.
pub trait GhostChanSend<T: 'static + Send> {
    /// Forward an item across this channel.
    fn ghost_chan_send(&mut self, item: T) -> (f: must_future::MustBoxFuture<'_, GhostResult<()>>);
}

impl<T: 'static + Send> GhostChanSend<T> for futures::channel::mpsc::Sender<T> {
    /// Sends on this sender; the future yields `send_outcome` of the outcome.
    fn ghost_chan_send(&mut self, item: T) -> (f: must_future::MustBoxFuture<'_, GhostResult<()>>)
        ensures
            is_send_result(f@),
    {
        send_borrowed(self, item)
    }
}

} // verus!
