//! The guard over the single engine session.
//!
//! The session is initialised lazily, once: a failed initialisation is kept
//! and never retried, and a fault while the session was held poisons it for
//! good.
use vstd::prelude::*;
use crate::retcode::CommandRetCode;

verus! {

/// The state of the engine session.
#[derive(Debug, PartialEq, Eq, Structural, Clone, Copy)]
pub enum Phase {
    /// The engine has not been initialised yet.
    Uninitialized,
    /// The engine holds a valid handle.
    Ready,
    /// Initialisation gave no handle; it is not tried again.
    InitFailed,
    /// A fault happened while the session was held.
    Poisoned,
}

/// What happens to a session between two acquisitions.
#[derive(Debug, PartialEq, Eq, Structural, Clone, Copy)]
pub enum SessionEvent {
    /// The engine's initialisation returned; `true` where it gave a handle.
    InitReturned(bool),
    /// A fault happened while the session was held.
    Fault,
}

/// What an acquisition of the session is to do.
#[derive(Debug)]
pub enum Admission {
    /// Initialise the engine, record the result, then ask again.
    Initialize,
    /// Use the engine.
    Enter,
    /// Fail with this outcome.
    Refuse(CommandRetCode),
}

/// The phase after one event.
pub open spec fn phase_after(p: Phase, e: SessionEvent) -> Phase {
    match e {
        SessionEvent::Fault => Phase::Poisoned,
        SessionEvent::InitReturned(ok) => if p == Phase::Uninitialized {
            if ok {
                Phase::Ready
            } else {
                Phase::InitFailed
            }
        } else {
            p
        },
    }
}

/// The phase after a sequence of events, in order.
pub open spec fn phase_after_all(p: Phase, es: Seq<SessionEvent>) -> Phase
    decreases es.len(),
{
    if es.len() == 0 {
        p
    } else {
        phase_after_all(phase_after(p, es[0]), es.drop_first())
    }
}

/// What an acquisition does in each phase.
pub open spec fn admission_of(p: Phase) -> Admission {
    match p {
        Phase::Uninitialized => Admission::Initialize,
        Phase::Ready => Admission::Enter,
        Phase::InitFailed => Admission::Refuse(CommandRetCode::InitFailed),
        Phase::Poisoned => Admission::Refuse(CommandRetCode::GlobalStatePoisoned),
    }
}

/// The session's state.
pub struct Session {
    phase: Phase,
}

impl View for Session {
    type V = Phase;

    closed spec fn view(&self) -> Phase {
        self.phase
    }
}

impl Session {
    /// A session whose engine has not been initialised.
    pub fn new() -> (r: Session)
        ensures
            r@ == Phase::Uninitialized,
    {
        Session { phase: Phase::Uninitialized }
    }

    /// The session's phase.
    pub fn phase(&self) -> (r: Phase)
        ensures
            r == self@,
    {
        self.phase
    }

    /// What an acquisition of the session is to do now.
    pub fn admission(&self) -> (r: Admission)
        ensures
            r == admission_of(self@),
    {
        match self.phase {
            Phase::Uninitialized => Admission::Initialize,
            Phase::Ready => Admission::Enter,
            Phase::InitFailed => Admission::Refuse(CommandRetCode::InitFailed),
            Phase::Poisoned => Admission::Refuse(CommandRetCode::GlobalStatePoisoned),
        }
    }

    /// Records what the engine's initialisation returned. Only the first
    /// result counts: in any other phase the session is left as it is.
    pub fn record_init(&mut self, handle_present: bool)
        ensures
            final(self)@ == phase_after(old(self)@, SessionEvent::InitReturned(handle_present)),
    {
        if self.phase == Phase::Uninitialized {
            self.phase = if handle_present {
                Phase::Ready
            } else {
                Phase::InitFailed
            };
        }
    }

    /// Records a fault while the session was held.
    pub fn record_fault(&mut self)
        ensures
            final(self)@ == phase_after(old(self)@, SessionEvent::Fault),
    {
        self.phase = Phase::Poisoned;
    }
}

/// Once the engine has been initialised, or its initialisation has failed,
/// no later acquisition initialises it again, whatever happens in between.
pub proof fn lemma_initialized_once(p: Phase, es: Seq<SessionEvent>)
    requires
        p != Phase::Uninitialized,
    ensures
        phase_after_all(p, es) != Phase::Uninitialized,
        !(admission_of(phase_after_all(p, es)) is Initialize),
    decreases es.len(),
{
    if es.len() > 0 {
        lemma_initialized_once(phase_after(p, es[0]), es.drop_first());
    }
}

/// Once poisoned, a session stays poisoned, and every acquisition fails
/// with the poisoned-state outcome.
pub proof fn lemma_poison_is_permanent(es: Seq<SessionEvent>)
    ensures
        phase_after_all(Phase::Poisoned, es) == Phase::Poisoned,
        admission_of(phase_after_all(Phase::Poisoned, es)) == Admission::Refuse(
            CommandRetCode::GlobalStatePoisoned,
        ),
    decreases es.len(),
{
    if es.len() > 0 {
        lemma_poison_is_permanent(es.drop_first());
    }
}

} // verus!
