//! The therapeutic-phase state carried across a session.

use vstd::prelude::*;

verus! {

/// The phase a session is in; phases only ever advance, and the last
/// one is absorbing.
#[derive(Clone, Copy, Debug, PartialEq, Eq, Structural)]
pub enum TherapyPhase {
    Assessment,
    Initial,
    Middle,
    Termination,
}

/// The phase after one advance: each phase steps to the next, and
/// termination stays put.
pub open spec fn next_phase(p: TherapyPhase) -> TherapyPhase {
    match p {
        TherapyPhase::Assessment => TherapyPhase::Initial,
        TherapyPhase::Initial => TherapyPhase::Middle,
        TherapyPhase::Middle => TherapyPhase::Termination,
        TherapyPhase::Termination => TherapyPhase::Termination,
    }
}

/// Per-session therapeutic state: the phase, a session counter and the
/// session's goals.
pub struct TherapeuticContext {
    pub phase: TherapyPhase,
    pub session_count: u32,
    pub goals: Vec<String>,
}

impl TherapeuticContext {
    /// A fresh context: assessment phase, no sessions, no goals.
    pub fn new() -> (r: TherapeuticContext)
        ensures
            r.phase == TherapyPhase::Assessment,
            r.session_count == 0,
            r.goals@.len() == 0,
    {
        TherapeuticContext { phase: TherapyPhase::Assessment, session_count: 0, goals: Vec::new() }
    }

    /// Step to the next phase; the termination phase is absorbing.
    pub fn advance_phase(&mut self)
        ensures
            final(self).phase == next_phase(old(self).phase),
            final(self).session_count == old(self).session_count,
            final(self).goals == old(self).goals,
    {
        self.phase = match self.phase {
            TherapyPhase::Assessment => TherapyPhase::Initial,
            TherapyPhase::Initial => TherapyPhase::Middle,
            TherapyPhase::Middle => TherapyPhase::Termination,
            TherapyPhase::Termination => TherapyPhase::Termination,
        };
    }

    /// Count one more session.
    pub fn increment_session(&mut self)
        requires
            old(self).session_count < u32::MAX,
        ensures
            final(self).session_count == old(self).session_count + 1,
            final(self).phase == old(self).phase,
            final(self).goals == old(self).goals,
    {
        self.session_count = self.session_count + 1;
    }

    /// Record one more goal.
    pub fn add_goal(&mut self, goal: String)
        ensures
            final(self).goals@ == old(self).goals@.push(goal),
            final(self).phase == old(self).phase,
            final(self).session_count == old(self).session_count,
    {
        self.goals.push(goal);
    }
}

} // verus!
