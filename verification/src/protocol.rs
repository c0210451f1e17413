//! The order in which a duel may be driven.
//!
//! A duel is started once. From then on it is advanced step by step, and each
//! step ends with the engine's word on what comes next: it can be advanced
//! again, it waits for a response, or it has ended. The engine itself does not
//! say what happens when this order is broken, so the host keeps track of it
//! and refuses a call that is out of turn before the engine sees it.

use crate::duel::DuelStatus;
use vstd::prelude::*;

verus! {

/// Where a duel stands.
#[derive(Debug, Clone, Copy, PartialEq, Eq, Structural)]
pub enum DuelPhase {
    /// Created and not yet started: cards may be added.
    Uninitialized,
    /// Started and not yet advanced.
    Started,
    /// The engine can be advanced again at once.
    Continue,
    /// The engine waits for a response.
    Awaiting,
    /// The engine waited for a response and has been given one, which it
    /// takes up when it is advanced.
    Responded,
    /// The duel has ended.
    Ended,
}

/// A call that is bound to the order of the duel.
#[derive(Debug, Clone, Copy, PartialEq, Eq, Structural)]
pub enum DuelCall {
    Start,
    Process,
    SetResponse,
}

impl DuelPhase {
    /// `call` is in turn in this phase.
    pub open spec fn allows(self, call: DuelCall) -> bool {
        match call {
            DuelCall::Start => self == DuelPhase::Uninitialized,
            DuelCall::Process => self == DuelPhase::Started || self == DuelPhase::Continue || self
                == DuelPhase::Responded,
            DuelCall::SetResponse => self == DuelPhase::Awaiting || self == DuelPhase::Responded,
        }
    }

    /// The phase that the engine's word on a step leads to.
    pub open spec fn of_status(status: DuelStatus) -> DuelPhase {
        match status {
            DuelStatus::End => DuelPhase::Ended,
            DuelStatus::Awaiting => DuelPhase::Awaiting,
            DuelStatus::Continue => DuelPhase::Continue,
        }
    }

    /// The phase of a duel that was just created.
    pub fn new() -> (phase: DuelPhase)
        ensures
            phase == DuelPhase::Uninitialized,
    {
        DuelPhase::Uninitialized
    }

    /// Whether `call` is in turn.
    pub fn permits(&self, call: DuelCall) -> (permitted: bool)
        ensures
            permitted == self.allows(call),
    {
        match call {
            DuelCall::Start => match self {
                DuelPhase::Uninitialized => true,
                _ => false,
            },
            DuelCall::Process => match self {
                DuelPhase::Started | DuelPhase::Continue | DuelPhase::Responded => true,
                _ => false,
            },
            DuelCall::SetResponse => match self {
                DuelPhase::Awaiting | DuelPhase::Responded => true,
                _ => false,
            },
        }
    }

    /// Starts the duel. Out of turn, nothing changes and `false` comes back.
    pub fn start(&mut self) -> (started: bool)
        ensures
            started == old(self).allows(DuelCall::Start),
            started ==> *final(self) == DuelPhase::Started,
            !started ==> *final(self) == *old(self),
    {
        if self.permits(DuelCall::Start) {
            *self = DuelPhase::Started;
            true
        } else {
            false
        }
    }

    /// Records a step of the engine that ended with `status`. Out of turn,
    /// nothing changes and `false` comes back.
    pub fn process(&mut self, status: DuelStatus) -> (advanced: bool)
        ensures
            advanced == old(self).allows(DuelCall::Process),
            advanced ==> *final(self) == DuelPhase::of_status(status),
            !advanced ==> *final(self) == *old(self),
    {
        if self.permits(DuelCall::Process) {
            *self = match status {
                DuelStatus::End => DuelPhase::Ended,
                DuelStatus::Awaiting => DuelPhase::Awaiting,
                DuelStatus::Continue => DuelPhase::Continue,
            };
            true
        } else {
            false
        }
    }

    /// Records that a response was supplied. A response that the engine has
    /// not taken up yet is replaced. Out of turn, nothing changes and `false`
    /// comes back.
    pub fn set_response(&mut self) -> (accepted: bool)
        ensures
            accepted == old(self).allows(DuelCall::SetResponse),
            accepted ==> *final(self) == DuelPhase::Responded,
            !accepted ==> *final(self) == *old(self),
    {
        if self.permits(DuelCall::SetResponse) {
            *self = DuelPhase::Responded;
            true
        } else {
            false
        }
    }
}

/// Once a duel has ended, no call is in turn any more; and the engine is
/// never advanced while it waits for a response that it was not given.
pub proof fn lemma_ended_is_final(call: DuelCall)
    ensures
        !DuelPhase::Ended.allows(call),
        !DuelPhase::Awaiting.allows(DuelCall::Process),
        DuelPhase::Awaiting.allows(DuelCall::SetResponse),
{
}

/// A step that is in turn always ends in one of the three phases that the
/// engine can report, whatever it reports.
pub proof fn lemma_step_outcomes(status: DuelStatus)
    ensures
        DuelPhase::of_status(status) == DuelPhase::Continue || DuelPhase::of_status(status)
            == DuelPhase::Awaiting || DuelPhase::of_status(status) == DuelPhase::Ended,
        DuelPhase::of_status(status).allows(DuelCall::Process) <==> status == DuelStatus::Continue,
        DuelPhase::of_status(status).allows(DuelCall::SetResponse) <==> status
            == DuelStatus::Awaiting,
{
}

} // verus!
