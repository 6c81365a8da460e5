//! The stage machine of the ADSR envelope.
//!
//! The envelope's level is computed outside this module; what is decided
//! here is which stage follows which, given whether the level has reached
//! the end of the current stage.

use vstd::prelude::*;

verus! {

/// Envelope stage
#[derive(Debug, Clone, Copy, PartialEq, Eq, Structural)]
pub enum EnvelopeStage {
    Idle,
    Attack,
    Decay,
    Sustain,
    Release,
}

impl EnvelopeStage {
    /// An envelope is active whenever it is not idle.
    pub open spec fn active(self) -> bool {
        self != EnvelopeStage::Idle
    }

    /// Stage after a trigger: always the attack, whatever came before.
    pub open spec fn triggered(self) -> EnvelopeStage {
        EnvelopeStage::Attack
    }

    /// Whether a release request starts a release from this stage.
    pub open spec fn releasable(self) -> bool {
        self != EnvelopeStage::Idle && self != EnvelopeStage::Release
    }

    /// Stage after a release request: a no-op from idle or release.
    pub open spec fn released(self) -> EnvelopeStage {
        if self.releasable() {
            EnvelopeStage::Release
        } else {
            self
        }
    }

    /// Stage after one sample. `reached` says that the level has arrived
    /// at the end of the current stage: full level in the attack, the
    /// sustain level in the decay, zero in the release.
    pub open spec fn stepped(self, reached: bool) -> EnvelopeStage {
        match self {
            EnvelopeStage::Attack if reached => EnvelopeStage::Decay,
            EnvelopeStage::Decay if reached => EnvelopeStage::Sustain,
            EnvelopeStage::Release if reached => EnvelopeStage::Idle,
            _ => self,
        }
    }

    /// Check if the envelope is active (not idle).
    pub fn is_active(self) -> (active: bool)
        ensures
            active == self.active(),
    {
        match self {
            EnvelopeStage::Idle => false,
            _ => true,
        }
    }

    /// Stage entered by a trigger.
    pub fn on_trigger(self) -> (next: EnvelopeStage)
        ensures
            next == self.triggered(),
    {
        EnvelopeStage::Attack
    }

    /// Whether a release request takes effect in this stage.
    pub fn can_release(self) -> (allowed: bool)
        ensures
            allowed == self.releasable(),
    {
        match self {
            EnvelopeStage::Idle => false,
            EnvelopeStage::Release => false,
            _ => true,
        }
    }

    /// Stage entered by a release request.
    pub fn on_release(self) -> (next: EnvelopeStage)
        ensures
            next == self.released(),
    {
        if self.can_release() {
            EnvelopeStage::Release
        } else {
            self
        }
    }

    /// Stage entered after one sample.
    pub fn on_sample(self, reached: bool) -> (next: EnvelopeStage)
        ensures
            next == self.stepped(reached),
    {
        match self {
            EnvelopeStage::Attack => if reached {
                EnvelopeStage::Decay
            } else {
                EnvelopeStage::Attack
            },
            EnvelopeStage::Decay => if reached {
                EnvelopeStage::Sustain
            } else {
                EnvelopeStage::Decay
            },
            EnvelopeStage::Release => if reached {
                EnvelopeStage::Idle
            } else {
                EnvelopeStage::Release
            },
            EnvelopeStage::Idle => EnvelopeStage::Idle,
            EnvelopeStage::Sustain => EnvelopeStage::Sustain,
        }
    }
}

/// Whether the envelope may pass from `from` to `to` in one event.
pub open spec fn allowed_transition(from: EnvelopeStage, to: EnvelopeStage) -> bool {
    ||| from == to
    ||| to == EnvelopeStage::Attack
    ||| (from == EnvelopeStage::Attack && to == EnvelopeStage::Decay)
    ||| (from == EnvelopeStage::Decay && to == EnvelopeStage::Sustain)
    ||| (from != EnvelopeStage::Idle && to == EnvelopeStage::Release)
    ||| (from == EnvelopeStage::Release && to == EnvelopeStage::Idle)
}

/// Every event moves the envelope along an allowed transition: samples
/// only walk attack, decay, sustain and release, idle in the end; only a
/// trigger enters the attack and only a release request the release.
pub proof fn lemma_transitions_allowed(stage: EnvelopeStage, reached: bool)
    ensures
        allowed_transition(stage, stage.triggered()),
        allowed_transition(stage, stage.released()),
        allowed_transition(stage, stage.stepped(reached)),
        stage.stepped(reached) == EnvelopeStage::Attack ==> stage == EnvelopeStage::Attack,
        stage.stepped(reached) == EnvelopeStage::Release ==> stage == EnvelopeStage::Release,
        stage.released() == EnvelopeStage::Attack ==> stage == EnvelopeStage::Attack,
{
}

/// An idle envelope stays idle until it is triggered, and a trigger makes
/// any envelope active.
pub proof fn lemma_idle_until_triggered(reached: bool)
    ensures
        EnvelopeStage::Idle.stepped(reached) == EnvelopeStage::Idle,
        EnvelopeStage::Idle.released() == EnvelopeStage::Idle,
        !EnvelopeStage::Idle.active(),
        forall|stage: EnvelopeStage| (#[trigger] stage.triggered()).active(),
{
}

/// A triggered envelope whose level reaches the end of the attack and of
/// the decay holds in the sustain stage for as long as it is not released.
pub proof fn lemma_trigger_reaches_sustain(stage: EnvelopeStage, reached: bool)
    ensures
        stage.triggered().stepped(true).stepped(true) == EnvelopeStage::Sustain,
        EnvelopeStage::Sustain.stepped(reached) == EnvelopeStage::Sustain,
{
}

/// A release request on an active envelope leads to idle as soon as the
/// level has reached zero; until then the envelope stays in its release.
pub proof fn lemma_release_reaches_idle(stage: EnvelopeStage)
    requires
        stage.active(),
    ensures
        stage.released() == EnvelopeStage::Release,
        stage.released().stepped(false) == EnvelopeStage::Release,
        stage.released().stepped(true) == EnvelopeStage::Idle,
        !stage.released().stepped(true).active(),
        stage.released().released() == stage.released(),
{
}

} // verus!
