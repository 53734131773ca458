use vstd::prelude::*;

use crate::error::BridgeError;

verus! {

/// Where the process-wide engine start-up stands.
#[derive(Debug, Clone, Copy, PartialEq, Eq, Structural)]
pub enum EnginePhase {
    /// Nobody has asked for the engine yet.
    Uninitialized,
    /// One caller is running the start-up routines.
    Starting,
    /// The start-up routines finished and the engine can be used.
    Ready,
    /// The start-up routines failed; the process cannot render.
    Failed,
}

/// What a caller of [`EngineState::ensure_ready`] must do next.
#[derive(Debug, Clone, Copy, PartialEq, Eq, Structural)]
pub enum InitAction {
    /// This caller runs the start-up routines, then reports with
    /// [`EngineState::finish_init`].
    RunInit,
    /// Another caller is starting the engine: wait for it and ask again.
    Wait,
    /// The engine is ready.
    Proceed,
    /// Start-up failed earlier; the failure is fatal.
    Abort,
}

/// An event in the life of the engine state: a caller asking for the
/// engine, or the starter reporting how start-up went.
pub enum EngineEvent {
    Request,
    InitDone(bool),
}

/// The answer to a request made in phase `p`.
pub open spec fn action_for(p: EnginePhase) -> InitAction {
    match p {
        EnginePhase::Uninitialized => InitAction::RunInit,
        EnginePhase::Starting => InitAction::Wait,
        EnginePhase::Ready => InitAction::Proceed,
        EnginePhase::Failed => InitAction::Abort,
    }
}

/// The phase after event `e` in phase `p`. A start-up report outside of
/// start-up changes nothing.
pub open spec fn engine_step(p: EnginePhase, e: EngineEvent) -> EnginePhase {
    match e {
        EngineEvent::Request => if p == EnginePhase::Uninitialized {
            EnginePhase::Starting
        } else {
            p
        },
        EngineEvent::InitDone(ok) => if p == EnginePhase::Starting {
            if ok {
                EnginePhase::Ready
            } else {
                EnginePhase::Failed
            }
        } else {
            p
        },
    }
}

/// The phase reached from `p` after the events `evs`, in order.
pub open spec fn phase_after(p: EnginePhase, evs: Seq<EngineEvent>) -> EnginePhase
    decreases evs.len(),
{
    if evs.len() == 0 {
        p
    } else {
        phase_after(engine_step(p, evs[0]), evs.drop_first())
    }
}

/// How many of the requests in `evs`, starting from phase `p`, are told to
/// run the start-up routines.
pub open spec fn init_runs(p: EnginePhase, evs: Seq<EngineEvent>) -> nat
    decreases evs.len(),
{
    if evs.len() == 0 {
        0
    } else {
        let here: nat = if evs[0] is Request && action_for(p) == InitAction::RunInit {
            1
        } else {
            0
        };
        here + init_runs(engine_step(p, evs[0]), evs.drop_first())
    }
}

/// The process-wide record of the engine's start-up.
#[derive(Debug)]
pub struct EngineState {
    pub phase: EnginePhase,
}

impl EngineState {
    /// The state at process start: nothing has been started.
    pub fn new() -> (r: EngineState)
        ensures
            r.phase == EnginePhase::Uninitialized,
    {
        EngineState { phase: EnginePhase::Uninitialized }
    }

    /// Answers a caller that needs the engine. The first caller is told to
    /// start it; callers during start-up wait; later callers proceed, or
    /// abort when start-up failed.
    pub fn ensure_ready(&mut self) -> (a: InitAction)
        ensures
            a == action_for(old(self).phase),
            final(self).phase == engine_step(old(self).phase, EngineEvent::Request),
    {
        match self.phase {
            EnginePhase::Uninitialized => {
                self.phase = EnginePhase::Starting;
                InitAction::RunInit
            },
            EnginePhase::Starting => InitAction::Wait,
            EnginePhase::Ready => InitAction::Proceed,
            EnginePhase::Failed => InitAction::Abort,
        }
    }

    /// Records how the start-up routines went; called once by the caller
    /// that was told [`InitAction::RunInit`].
    pub fn finish_init(&mut self, ok: bool)
        requires
            old(self).phase == EnginePhase::Starting,
        ensures
            final(self).phase == engine_step(old(self).phase, EngineEvent::InitDone(ok)),
            final(self).phase == (if ok {
                EnginePhase::Ready
            } else {
                EnginePhase::Failed
            }),
    {
        if ok {
            self.phase = EnginePhase::Ready;
        } else {
            self.phase = EnginePhase::Failed;
        }
    }

    /// The error a call reports when the engine is not usable.
    pub fn readiness(&self) -> (r: Result<(), BridgeError>)
        ensures
            r is Ok <==> self.phase == EnginePhase::Ready,
            r is Err ==> r == Err::<(), BridgeError>(BridgeError::EngineInitFailure),
    {
        if self.phase == EnginePhase::Ready {
            Ok(())
        } else {
            Err(BridgeError::EngineInitFailure)
        }
    }
}

/// Past the first phase, no request is ever told to start the engine.
pub proof fn lemma_no_init_after_start(p: EnginePhase, evs: Seq<EngineEvent>)
    requires
        p != EnginePhase::Uninitialized,
    ensures
        init_runs(p, evs) == 0,
        phase_after(p, evs) != EnginePhase::Uninitialized,
    decreases evs.len(),
{
    if evs.len() > 0 {
        lemma_no_init_after_start(engine_step(p, evs[0]), evs.drop_first());
    }
}

/// Start-up runs at most once: whatever requests and reports arrive, in
/// whatever order, at most one request is told to run the start-up routines.
pub proof fn lemma_init_at_most_once(p: EnginePhase, evs: Seq<EngineEvent>)
    ensures
        init_runs(p, evs) <= 1,
    decreases evs.len(),
{
    if evs.len() > 0 {
        let q = engine_step(p, evs[0]);
        if p == EnginePhase::Uninitialized && evs[0] is Request {
            lemma_no_init_after_start(q, evs.drop_first());
        } else {
            lemma_init_at_most_once(q, evs.drop_first());
        }
    }
}

/// Once the engine is ready it stays ready, and every later request is
/// told to proceed without starting anything.
pub proof fn lemma_ready_is_final(evs: Seq<EngineEvent>)
    ensures
        phase_after(EnginePhase::Ready, evs) == EnginePhase::Ready,
        init_runs(EnginePhase::Ready, evs) == 0,
    decreases evs.len(),
{
    if evs.len() > 0 {
        lemma_ready_is_final(evs.drop_first());
    }
    lemma_no_init_after_start(EnginePhase::Ready, evs);
}

} // verus!
