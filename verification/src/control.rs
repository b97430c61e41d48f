use vstd::prelude::*;
use std::sync::Arc;
use crate::error::{GhostError, GhostResult};
use crate::outside::{ShutdownSignal, mpsc_sender_clone, shutdown_signal_clone};
use crate::state::GhostActorState;

verus! {

/// What a shutdown request comes to, whatever became of the wake-up sent
/// to the actor task: the request itself already took effect.
pub fn interrupt_outcome(r: Result<(), futures::channel::mpsc::SendError>) -> (out: GhostResult<()>)
    ensures
        out == Ok::<(), GhostError>(()),
{
    Ok(())
}

/// Controls a running actor: its run state, the wake-up channel of its
/// task loop, and the signal that the loop has ended.
pub struct GhostActorControl {
    interupt_send: futures::channel::mpsc::Sender<()>,
    state: Arc<GhostActorState>,
    done: ShutdownSignal,
}

impl GhostActorControl {
    /// The run-state cell this control shares with its clones.
    pub closed spec fn shared_state(&self) -> GhostActorState {
        *self.state
    }

    /// The sender on which this control wakes the task loop.
    pub closed spec fn interrupt_sender(&self) -> futures::channel::mpsc::Sender<()> {
        self.interupt_send
    }

    /// The signal that completes once the task loop has ended.
    pub closed spec fn ended_signal(&self) -> ShutdownSignal {
        self.done
    }

    /// A control in the `Active` state that wakes the task loop through
    /// `interupt_send` and learns through `done` that the loop has ended.
    pub fn new(interupt_send: futures::channel::mpsc::Sender<()>, done: ShutdownSignal) -> (c:
        GhostActorControl)
        ensures
            c.interrupt_sender() == interupt_send,
            c.ended_signal() == done,
    {
        GhostActorControl { interupt_send, state: Arc::new(GhostActorState::new()), done }
    }

    /// The shared run state.
    pub fn state(&self) -> (s: &GhostActorState)
        ensures
            *s == self.shared_state(),
    {
        &self.state
    }

    /// A new sender on the wake-up channel of the task loop.
    pub fn wake_sender(&self) -> (s: futures::channel::mpsc::Sender<()>) {
        mpsc_sender_clone(&self.interupt_send)
    }

    /// A handle to the signal that completes once the task loop has ended.
    pub fn shutdown_signal(&self) -> (s: ShutdownSignal) {
        shutdown_signal_clone(&self.done)
    }

    /// Whether the shared run state reads `Active`: it reads the state and
    /// asks `GhostActorStateType::is_active` of what it read.
    pub fn ghost_actor_active(&self) -> (b: bool) {
        self.state.get().is_active()
    }
}

impl Clone for GhostActorControl {
    fn clone(&self) -> (c: GhostActorControl)
        ensures
            c.shared_state() == self.shared_state(),
    {
        GhostActorControl {
            interupt_send: mpsc_sender_clone(&self.interupt_send),
            state: self.state.clone(),
            done: shutdown_signal_clone(&self.done),
        }
    }
}

} // verus!
