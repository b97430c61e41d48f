use vstd::prelude::*;
use crate::error::{GhostError, GhostResult};
use crate::state::GhostActorStateType;

verus! {

/// Where the actor task loop stands: what it waits for next.
#[derive(Debug, Clone, Copy, PartialEq, Eq)]
pub enum LoopPhase {
    /// Waits for a read of the run state, before taking new channels in.
    StateBeforeDrain,
    /// Waits for the newly attached channels to be taken in.
    Draining,
    /// Waits for a read of the run state, before looking for an event.
    StateBeforeNext,
    /// Waits, as long as it takes, for the next event of any channel.
    Waiting,
    /// Waits for an answer to whether an event is ready now; nothing new is
    /// waited for once shutdown is pending.
    Polling,
    /// Waits for the event just received to be applied to the handler.
    Applying,
    /// Waits for the state to be marked `Shutdown` and the handler's
    /// shutdown callback to finish.
    ShuttingDown,
    /// The loop is over.
    Finished,
}

/// What the task loop was told.
#[derive(Debug, PartialEq, Eq)]
pub enum LoopEvent {
    /// The run state was read.
    StateRead(GhostActorStateType),
    /// Newly attached channels were taken in, or taking them failed.
    Drained(GhostResult<()>),
    /// Looking for an event ended: `true` when an event came; `false` when
    /// every channel is closed or, when only ready events were asked for,
    /// none was ready.
    NextEvent(bool),
    /// The event was applied to the handler.
    Applied,
    /// The state was marked `Shutdown` and the shutdown callback finished.
    ShutdownDone,
}

/// What the task loop is to do next.
#[derive(Debug, PartialEq, Eq)]
pub enum LoopAction {
    /// Read the run state.
    ReadState,
    /// Take newly attached channels into the multiplexer.
    DrainInjects,
    /// Wait for the next event, as long as it takes.
    AwaitNext,
    /// Take an event only if one is ready now, without waiting.
    TakeReady,
    /// Apply the event just received to the handler.
    ApplyEvent,
    /// Mark the run state `Shutdown`, then run the handler's shutdown
    /// callback.
    RunShutdown,
    /// End the task with this result.
    Return(GhostResult<()>),
}

/// Whether `e` is an answer that phase `p` waits for.
pub open spec fn loop_accepts(p: LoopPhase, e: LoopEvent) -> bool {
    match p {
        LoopPhase::StateBeforeDrain => e is StateRead,
        LoopPhase::Draining => e is Drained,
        LoopPhase::StateBeforeNext => e is StateRead,
        LoopPhase::Waiting => e is NextEvent,
        LoopPhase::Polling => e is NextEvent,
        LoopPhase::Applying => e is Applied,
        LoopPhase::ShuttingDown => e is ShutdownDone,
        LoopPhase::Finished => false,
    }
}

/// The loop's transition table: from a phase and an accepted answer to the
/// next phase and the action that phase needs. While the actor is active it
/// waits for events; once shutdown is pending it only takes the events that
/// are ready and stops when none is; a `Shutdown` state stops it at once.
pub open spec fn loop_next(p: LoopPhase, e: LoopEvent) -> (LoopPhase, LoopAction) {
    match (p, e) {
        (LoopPhase::StateBeforeDrain, LoopEvent::StateRead(GhostActorStateType::Active)) => (
            LoopPhase::Draining,
            LoopAction::DrainInjects,
        ),
        (
            LoopPhase::StateBeforeDrain,
            LoopEvent::StateRead(GhostActorStateType::PendingShutdown),
        ) => (LoopPhase::Draining, LoopAction::DrainInjects),
        (LoopPhase::Draining, LoopEvent::Drained(Ok(()))) => (
            LoopPhase::StateBeforeNext,
            LoopAction::ReadState,
        ),
        (LoopPhase::Draining, LoopEvent::Drained(Err(err))) => (
            LoopPhase::Finished,
            LoopAction::Return(Err(err)),
        ),
        (LoopPhase::StateBeforeNext, LoopEvent::StateRead(GhostActorStateType::Active)) => (
            LoopPhase::Waiting,
            LoopAction::AwaitNext,
        ),
        (
            LoopPhase::StateBeforeNext,
            LoopEvent::StateRead(GhostActorStateType::PendingShutdown),
        ) => (LoopPhase::Polling, LoopAction::TakeReady),
        (LoopPhase::Waiting, LoopEvent::NextEvent(true)) => (
            LoopPhase::Applying,
            LoopAction::ApplyEvent,
        ),
        (LoopPhase::Polling, LoopEvent::NextEvent(true)) => (
            LoopPhase::Applying,
            LoopAction::ApplyEvent,
        ),
        (LoopPhase::Applying, LoopEvent::Applied) => (
            LoopPhase::StateBeforeDrain,
            LoopAction::ReadState,
        ),
        (LoopPhase::ShuttingDown, LoopEvent::ShutdownDone) => (
            LoopPhase::Finished,
            LoopAction::Return(Ok(())),
        ),
        // a `Shutdown` state, channels that are all closed, or, with shutdown
        // pending, no event ready
        _ => (LoopPhase::ShuttingDown, LoopAction::RunShutdown),
    }
}

/// The phase before answer `i` of `es`, in a run that starts in `p0`.
pub open spec fn phase_before(p0: LoopPhase, es: Seq<LoopEvent>, i: nat) -> LoopPhase
    decreases i,
{
    if i == 0 {
        p0
    } else {
        loop_next(phase_before(p0, es, (i - 1) as nat), es[i - 1]).0
    }
}

/// The action asked for after answer `i` of `es`, in a run from `p0`.
pub open spec fn action_after(p0: LoopPhase, es: Seq<LoopEvent>, i: nat) -> LoopAction {
    loop_next(phase_before(p0, es, i), es[i as int]).1
}

/// Whether each answer of `es` is one that the run from `p0` waits for.
pub open spec fn run_accepts(p0: LoopPhase, es: Seq<LoopEvent>) -> bool {
    forall|i: nat| i < es.len() ==> #[trigger] loop_accepts(phase_before(p0, es, i), es[i as int])
}

/// A finished loop waits for nothing more.
pub proof fn lemma_finished_is_final(e: LoopEvent)
    ensures
        !loop_accepts(LoopPhase::Finished, e),
{
}

/// A read of the `Shutdown` state, or the end of every channel, makes the
/// loop stop through the shutdown path, and the loop then ends with `Ok`
/// as soon as the shutdown callback has finished.
pub proof fn lemma_stop_goes_through_shutdown(p: LoopPhase)
    ensures
        loop_accepts(p, LoopEvent::StateRead(GhostActorStateType::Shutdown)) ==> loop_next(
            p,
            LoopEvent::StateRead(GhostActorStateType::Shutdown),
        ) == (LoopPhase::ShuttingDown, LoopAction::RunShutdown),
        loop_accepts(p, LoopEvent::NextEvent(false)) ==> loop_next(p, LoopEvent::NextEvent(false))
            == (LoopPhase::ShuttingDown, LoopAction::RunShutdown),
        loop_next(LoopPhase::ShuttingDown, LoopEvent::ShutdownDone) == (
            LoopPhase::Finished,
            LoopAction::Return(Ok(())),
        ),
{
}

/// Once shutdown is pending the loop waits for no new event: a read of
/// `PendingShutdown` before looking for an event asks only for a ready one,
/// and the loop stops as soon as none is ready.
pub proof fn lemma_pending_shutdown_only_takes_ready(p: LoopPhase)
    ensures
        loop_accepts(p, LoopEvent::StateRead(GhostActorStateType::PendingShutdown))
            ==> loop_next(p, LoopEvent::StateRead(GhostActorStateType::PendingShutdown)).1
            != LoopAction::AwaitNext,
        p == LoopPhase::StateBeforeNext ==> loop_next(
            p,
            LoopEvent::StateRead(GhostActorStateType::PendingShutdown),
        ) == (LoopPhase::Polling, LoopAction::TakeReady),
        loop_next(LoopPhase::Polling, LoopEvent::NextEvent(false)) == (
            LoopPhase::ShuttingDown,
            LoopAction::RunShutdown,
        ),
{
}

/// In every run from the start, an event is applied only when it was just
/// received and the run state read right before looking for it was not
/// `Shutdown`; the loop waits for an event only after reading `Active`.
pub proof fn lemma_apply_only_when_running(es: Seq<LoopEvent>, i: nat)
    requires
        run_accepts(LoopPhase::StateBeforeDrain, es),
        i < es.len(),
    ensures
        action_after(LoopPhase::StateBeforeDrain, es, i) == LoopAction::ApplyEvent ==> {
            &&& i >= 1
            &&& es[i as int] == LoopEvent::NextEvent(true)
            &&& es[i - 1] != LoopEvent::StateRead(GhostActorStateType::Shutdown)
            &&& es[i - 1] is StateRead
            &&& phase_before(LoopPhase::StateBeforeDrain, es, (i - 1) as nat)
                == LoopPhase::StateBeforeNext
        },
        action_after(LoopPhase::StateBeforeDrain, es, i) == LoopAction::AwaitNext ==> es[i as int]
            == LoopEvent::StateRead(GhostActorStateType::Active),
{
    let p0 = LoopPhase::StateBeforeDrain;
    assert(loop_accepts(phase_before(p0, es, i), es[i as int]));
    if i >= 1 {
        let j = (i - 1) as nat;
        assert(loop_accepts(phase_before(p0, es, j), es[j as int]));
    }
}

/// Whether `e` is an answer that performing action `a` can produce: a read
/// of the state gives some state, taking channels in succeeds or fails,
/// looking for an event finds one or not, applying an event is done, and the
/// shutdown path finishes. A `Return` ends the loop and is answered by
/// nothing.
pub open spec fn answers_action(a: LoopAction, e: LoopEvent) -> bool {
    match a {
        LoopAction::ReadState => e is StateRead,
        LoopAction::DrainInjects => e is Drained,
        LoopAction::AwaitNext => e is NextEvent,
        LoopAction::TakeReady => e is NextEvent,
        LoopAction::ApplyEvent => e is Applied,
        LoopAction::RunShutdown => e is ShutdownDone,
        LoopAction::Return(_) => false,
    }
}

/// The loop never gets out of step: whatever action it asks for, the phase
/// it moves to takes every answer that performing the action can give, be
/// it any of the three states read, a failed or successful drain, an event
/// found or not, and so on. The same holds of the first action.
pub proof fn lemma_every_answer_is_taken(p: LoopPhase, e: LoopEvent, e2: LoopEvent)
    ensures
        answers_action(LoopAction::ReadState, e2) ==> loop_accepts(LoopPhase::StateBeforeDrain, e2),
        loop_accepts(p, e) && answers_action(loop_next(p, e).1, e2) ==> loop_accepts(
            loop_next(p, e).0,
            e2,
        ),
{
}

/// Concretely: each state read is taken in both phases that read the
/// state, and an event found or not is taken while waiting and while only
/// ready events are taken.
pub proof fn lemma_reads_and_events_are_taken(st: GhostActorStateType, found: bool)
    ensures
        loop_accepts(LoopPhase::StateBeforeDrain, LoopEvent::StateRead(st)),
        loop_accepts(LoopPhase::StateBeforeNext, LoopEvent::StateRead(st)),
        loop_accepts(LoopPhase::Waiting, LoopEvent::NextEvent(found)),
        loop_accepts(LoopPhase::Polling, LoopEvent::NextEvent(found)),
        loop_next(LoopPhase::Waiting, LoopEvent::NextEvent(true)).1 == LoopAction::ApplyEvent,
        loop_next(LoopPhase::Polling, LoopEvent::NextEvent(true)).1 == LoopAction::ApplyEvent,
{
}

/// The action that answer `i` of `es` answers, in a run from the start:
/// the first action for the first answer, else the action asked for after
/// the answer before.
pub open spec fn asked_before(es: Seq<LoopEvent>, i: nat) -> LoopAction {
    if i == 0 {
        LoopAction::ReadState
    } else {
        action_after(LoopPhase::StateBeforeDrain, es, (i - 1) as nat)
    }
}

/// Whether each answer of `es` answers the action asked for just before it,
/// in a run from the start.
pub open spec fn run_answers(es: Seq<LoopEvent>) -> bool {
    forall|i: nat| i < es.len() ==> answers_action(#[trigger] asked_before(es, i), es[i as int])
}

proof fn lemma_answered_prefix_is_taken(es: Seq<LoopEvent>, i: nat)
    requires
        run_answers(es),
        i < es.len(),
    ensures
        loop_accepts(phase_before(LoopPhase::StateBeforeDrain, es, i), es[i as int]),
    decreases i,
{
    let p0 = LoopPhase::StateBeforeDrain;
    assert(answers_action(asked_before(es, i), es[i as int]));
    if i > 0 {
        let j = (i - 1) as nat;
        lemma_answered_prefix_is_taken(es, j);
        lemma_every_answer_is_taken(phase_before(p0, es, j), es[j as int], es[i as int]);
    } else {
        lemma_every_answer_is_taken(p0, es[0], es[0]);
    }
}

/// In every run from the start in which each answer is one that the asked
/// action can give, the loop takes every answer, and it ends with an error
/// only when taking channels in failed, with that failure.
pub proof fn lemma_answered_runs_stay_in_step(es: Seq<LoopEvent>)
    requires
        run_answers(es),
    ensures
        run_accepts(LoopPhase::StateBeforeDrain, es),
        forall|i: nat|
            i < es.len() ==> (#[trigger] action_after(LoopPhase::StateBeforeDrain, es, i) matches LoopAction::Return(Err(err))
                ==> es[i as int] == LoopEvent::Drained(Err(err))),
{
    assert forall|i: nat| i < es.len() implies #[trigger] loop_accepts(
        phase_before(LoopPhase::StateBeforeDrain, es, i),
        es[i as int],
    ) by {
        lemma_answered_prefix_is_taken(es, i);
    }
    assert forall|i: nat| i < es.len() implies (#[trigger] action_after(
        LoopPhase::StateBeforeDrain,
        es,
        i,
    ) matches LoopAction::Return(Err(err)) ==> es[i as int] == LoopEvent::Drained(Err(err))) by {
        lemma_answered_prefix_is_taken(es, i);
    }
}

/// Dispatches to the handler never overlap: once the loop asks for an event
/// to be applied, the only answer it takes is that the event was applied,
/// and it then reads the state again before anything else.
pub proof fn lemma_apply_is_exclusive(p: LoopPhase, e: LoopEvent, e2: LoopEvent)
    requires
        loop_accepts(p, e),
        loop_next(p, e).1 == LoopAction::ApplyEvent,
    ensures
        loop_next(p, e).0 == LoopPhase::Applying,
        loop_accepts(LoopPhase::Applying, e2) <==> e2 == LoopEvent::Applied,
        loop_next(LoopPhase::Applying, LoopEvent::Applied) == (
            LoopPhase::StateBeforeDrain,
            LoopAction::ReadState,
        ),
{
}

/// In every run from the start, the loop returns `Ok` only right after it
/// marked the state `Shutdown` and ran the shutdown callback.
pub proof fn lemma_ok_only_after_shutdown(es: Seq<LoopEvent>, i: nat)
    requires
        run_accepts(LoopPhase::StateBeforeDrain, es),
        i < es.len(),
        action_after(LoopPhase::StateBeforeDrain, es, i) == LoopAction::Return(Ok(())),
    ensures
        i >= 1,
        action_after(LoopPhase::StateBeforeDrain, es, (i - 1) as nat) == LoopAction::RunShutdown,
        es[i as int] == LoopEvent::ShutdownDone,
{
    let p0 = LoopPhase::StateBeforeDrain;
    assert(loop_accepts(phase_before(p0, es, i), es[i as int]));
    if i >= 1 {
        let j = (i - 1) as nat;
        assert(loop_accepts(phase_before(p0, es, j), es[j as int]));
    }
}

/// In every run, the shutdown path is taken at most once and is the last
/// thing the loop does with the handler: after it the only answer taken is
/// that the callback finished, and the loop then returns `Ok` and takes
/// nothing more.
pub proof fn lemma_shutdown_runs_once(p0: LoopPhase, es: Seq<LoopEvent>, i: nat)
    requires
        run_accepts(p0, es),
        i < es.len(),
        action_after(p0, es, i) == LoopAction::RunShutdown,
    ensures
        es.len() <= i + 2,
        i + 1 < es.len() ==> action_after(p0, es, i + 1) == LoopAction::Return(Ok(())),
        forall|j: nat|
            i < j < es.len() ==> #[trigger] action_after(p0, es, j) != LoopAction::ApplyEvent
                && action_after(p0, es, j) != LoopAction::RunShutdown,
{
    assert(phase_before(p0, es, i + 1) == LoopPhase::ShuttingDown);
    if i + 1 < es.len() {
        assert(loop_accepts(phase_before(p0, es, i + 1), es[i + 1int]));
        assert(es[i + 1int] == LoopEvent::ShutdownDone);
        assert(phase_before(p0, es, i + 2) == LoopPhase::Finished);
        if i + 2 < es.len() {
            assert(loop_accepts(phase_before(p0, es, i + 2), es[i + 2int]));
        }
    }
}

/// The actor task loop's decisions: before taking in new channels and
/// before looking for an event it reads the run state; while the actor is
/// active it waits for events, once shutdown is pending it takes only the
/// events that are ready, and when it stops it marks the state `Shutdown`
/// and runs the handler's shutdown callback.
pub struct ActorLoop {
    phase: LoopPhase,
}

impl View for ActorLoop {
    type V = LoopPhase;

    closed spec fn view(&self) -> LoopPhase {
        self.phase
    }
}

impl ActorLoop {
    /// The loop before its first step; the first thing to do is to read
    /// the run state.
    pub fn start() -> (r: (ActorLoop, LoopAction))
        ensures
            r.0@ == LoopPhase::StateBeforeDrain,
            r.1 == LoopAction::ReadState,
    {
        (ActorLoop { phase: LoopPhase::StateBeforeDrain }, LoopAction::ReadState)
    }

    /// The phase the loop is in.
    pub fn phase(&self) -> (p: LoopPhase)
        ensures
            p == self@,
    {
        self.phase
    }

    /// Whether the loop waits for `e` now.
    pub fn accepts(&self, e: &LoopEvent) -> (b: bool)
        ensures
            b == loop_accepts(self@, *e),
    {
        match (self.phase, e) {
            (LoopPhase::StateBeforeDrain, LoopEvent::StateRead(_)) => true,
            (LoopPhase::Draining, LoopEvent::Drained(_)) => true,
            (LoopPhase::StateBeforeNext, LoopEvent::StateRead(_)) => true,
            (LoopPhase::Waiting, LoopEvent::NextEvent(_)) => true,
            (LoopPhase::Polling, LoopEvent::NextEvent(_)) => true,
            (LoopPhase::Applying, LoopEvent::Applied) => true,
            (LoopPhase::ShuttingDown, LoopEvent::ShutdownDone) => true,
            _ => false,
        }
    }

    /// Takes an answer in and says what to do next.
    pub fn step(&mut self, e: LoopEvent) -> (a: LoopAction)
        requires
            loop_accepts(old(self)@, e),
        ensures
            (final(self)@, a) == loop_next(old(self)@, e),
    {
        let (p, a) = match (self.phase, e) {
            (LoopPhase::StateBeforeDrain, LoopEvent::StateRead(GhostActorStateType::Active)) => (
                LoopPhase::Draining,
                LoopAction::DrainInjects,
            ),
            (
                LoopPhase::StateBeforeDrain,
                LoopEvent::StateRead(GhostActorStateType::PendingShutdown),
            ) => (LoopPhase::Draining, LoopAction::DrainInjects),
            (LoopPhase::Draining, LoopEvent::Drained(Ok(()))) => (
                LoopPhase::StateBeforeNext,
                LoopAction::ReadState,
            ),
            (LoopPhase::Draining, LoopEvent::Drained(Err(err))) => (
                LoopPhase::Finished,
                LoopAction::Return(Err(err)),
            ),
            (LoopPhase::StateBeforeNext, LoopEvent::StateRead(GhostActorStateType::Active)) => (
                LoopPhase::Waiting,
                LoopAction::AwaitNext,
            ),
            (
                LoopPhase::StateBeforeNext,
                LoopEvent::StateRead(GhostActorStateType::PendingShutdown),
            ) => (LoopPhase::Polling, LoopAction::TakeReady),
            (LoopPhase::Waiting, LoopEvent::NextEvent(true)) => (
                LoopPhase::Applying,
                LoopAction::ApplyEvent,
            ),
            (LoopPhase::Polling, LoopEvent::NextEvent(true)) => (
                LoopPhase::Applying,
                LoopAction::ApplyEvent,
            ),
            (LoopPhase::Applying, LoopEvent::Applied) => (
                LoopPhase::StateBeforeDrain,
                LoopAction::ReadState,
            ),
            (LoopPhase::ShuttingDown, LoopEvent::ShutdownDone) => (
                LoopPhase::Finished,
                LoopAction::Return(Ok(())),
            ),
            _ => (LoopPhase::ShuttingDown, LoopAction::RunShutdown),
        };
        self.phase = p;
        a
    }
}

} // verus!
