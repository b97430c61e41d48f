use vstd::prelude::*;
use vstd::rwlock::{RwLock, RwLockPredicate};

verus! {

/// Run state of an actor task.
#[derive(Debug, Clone, Copy, PartialEq, Eq)]
pub enum GhostActorStateType {
    /// The actor processes events.
    Active,
    /// A shutdown was asked for once pending work is done.
    PendingShutdown,
    /// The actor stops.
    Shutdown,
}

/// The byte that stands for a run state.
pub open spec fn state_code(s: GhostActorStateType) -> u8 {
    match s {
        GhostActorStateType::Active => 0x00u8,
        GhostActorStateType::PendingShutdown => 0xfeu8,
        GhostActorStateType::Shutdown => 0xffu8,
    }
}

/// Whether a byte stands for some run state.
pub open spec fn is_state_code(b: u8) -> bool {
    b == 0x00u8 || b == 0xfeu8 || b == 0xffu8
}

/// The run state that a valid byte stands for.
pub open spec fn state_of_code(b: u8) -> GhostActorStateType {
    if b == 0x00u8 {
        GhostActorStateType::Active
    } else if b == 0xfeu8 {
        GhostActorStateType::PendingShutdown
    } else {
        GhostActorStateType::Shutdown
    }
}

impl GhostActorStateType {
    /// The byte that stands for this state.
    pub fn to_code(self) -> (b: u8)
        ensures
            b == state_code(self),
            is_state_code(b),
            state_of_code(b) == self,
    {
        match self {
            GhostActorStateType::Active => 0x00u8,
            GhostActorStateType::PendingShutdown => 0xfeu8,
            GhostActorStateType::Shutdown => 0xffu8,
        }
    }

    /// Whether this is the `Active` state.
    pub fn is_active(self) -> (b: bool)
        ensures
            b == (self == GhostActorStateType::Active),
    {
        match self {
            GhostActorStateType::Active => true,
            _ => false,
        }
    }

    /// Decodes a state byte; only the three bytes of `to_code` are states
    /// (the byte of any other is refused, where a conversion would panic).
    pub fn from(b: u8) -> (s: GhostActorStateType)
        requires
            is_state_code(b),
        ensures
            s == state_of_code(b),
            state_code(s) == b,
    {
        if b == 0x00u8 {
            GhostActorStateType::Active
        } else if b == 0xfeu8 {
            GhostActorStateType::PendingShutdown
        } else {
            GhostActorStateType::Shutdown
        }
    }
}

/// Encoding a state and decoding the byte gives the state back:
/// `from(s.to_code()) == s` for every state `s`.
pub proof fn lemma_state_code_round_trip(s: GhostActorStateType)
    ensures
        is_state_code(state_code(s)),
        state_of_code(state_code(s)) == s,
{
}

/// Distinct states have distinct bytes.
pub proof fn lemma_state_code_injective(s: GhostActorStateType, t: GhostActorStateType)
    ensures
        state_code(s) == state_code(t) <==> s == t,
{
}

/// The lock predicate of the shared state cell: it only ever holds a state byte.
pub struct StateCodePred;

impl RwLockPredicate<u8> for StateCodePred {
    open spec fn inv(self, v: u8) -> bool {
        is_state_code(v)
    }
}

/// The run state of an actor, shared between its task and its senders.
pub struct GhostActorState {
    cell: RwLock<u8, StateCodePred>,
}

impl GhostActorState {
    #[verifier::type_invariant]
    closed spec fn holds_state_codes(&self) -> bool {
        self.cell.pred() == StateCodePred
    }

    /// A new cell in the `Active` state.
    pub fn new() -> (s: GhostActorState) {
        GhostActorState {
            cell: RwLock::new(GhostActorStateType::Active.to_code(), Ghost(StateCodePred)),
        }
    }

    /// Writes a shutdown state; nothing writes `Active` after creation.
    fn store(&self, s: GhostActorStateType)
        requires
            s != GhostActorStateType::Active,
    {
        proof {
            use_type_invariant(self);
        }
        let (_old, handle) = self.cell.acquire_write();
        handle.release_write(s.to_code());
    }

    /// Asks for shutdown once pending work is done.
    pub fn set_pending_shutdown(&self) {
        self.store(GhostActorStateType::PendingShutdown);
    }

    /// Asks for immediate shutdown.
    pub fn set_shutdown(&self) {
        self.store(GhostActorStateType::Shutdown);
    }

    /// Reads the current run state. Other tasks may write the cell at any
    /// time, so which state comes back is not stated; that a valid state
    /// comes back (the decoding cannot fail) is what the lock's predicate
    /// proves.
    pub fn get(&self) -> (s: GhostActorStateType) {
        proof {
            use_type_invariant(self);
        }
        let handle = self.cell.acquire_read();
        let b = *handle.borrow();
        handle.release_read();
        GhostActorStateType::from(b)
    }
}

} // verus!
