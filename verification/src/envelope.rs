//! Envelope stages and the transitions between them.
//!
//! The amplitude arithmetic of the envelopes lives with the audio code; the
//! stage machine that it drives is here: a note-on starts the attack, a
//! note-off starts the release (unless the envelope is already idle), and on
//! every sample a stage hands over to the next one once its target level has
//! been reached.

use vstd::prelude::*;

verus! {

/// Current state of an envelope
#[derive(Debug, Clone, Copy, PartialEq, Eq, Structural)]
pub enum EnvelopeState {
    Idle,
    Attack,
    Decay,
    Sustain,
    Release,
}

/// The stage sequence an envelope follows.
#[derive(Debug, Clone, Copy, PartialEq, Eq, Structural)]
pub enum EnvelopeKind {
    /// Attack → Sustain (full level) → Release.
    AttackRelease,
    /// Attack → Decay → Sustain (sustain level) → Release.
    Adsr,
}

/// Stage after one sample, given whether the level has reached the current
/// stage's target (full level in Attack, the sustain level in Decay, zero in
/// Release).
pub open spec fn next_stage(state: EnvelopeState, kind: EnvelopeKind, target_reached: bool) -> EnvelopeState {
    match state {
        EnvelopeState::Idle => EnvelopeState::Idle,
        EnvelopeState::Attack => {
            if !target_reached {
                EnvelopeState::Attack
            } else if kind == EnvelopeKind::Adsr {
                EnvelopeState::Decay
            } else {
                EnvelopeState::Sustain
            }
        },
        EnvelopeState::Decay => {
            if kind == EnvelopeKind::AttackRelease || target_reached {
                EnvelopeState::Sustain
            } else {
                EnvelopeState::Decay
            }
        },
        EnvelopeState::Sustain => EnvelopeState::Sustain,
        EnvelopeState::Release => {
            if target_reached {
                EnvelopeState::Idle
            } else {
                EnvelopeState::Release
            }
        },
    }
}

/// Stage after a note-off.
pub open spec fn released_stage(state: EnvelopeState) -> EnvelopeState {
    if state == EnvelopeState::Idle {
        EnvelopeState::Idle
    } else {
        EnvelopeState::Release
    }
}

impl EnvelopeState {
    /// Stage after a note-on: the envelope (re)starts its attack.
    pub fn on_trigger(self) -> (r: Self)
        ensures
            r == EnvelopeState::Attack,
    {
        EnvelopeState::Attack
    }

    /// Stage after a note-off: an idle envelope stays idle, any other stage
    /// moves to the release.
    pub fn on_release(self) -> (r: Self)
        ensures
            r == released_stage(self),
    {
        if self == EnvelopeState::Idle {
            EnvelopeState::Idle
        } else {
            EnvelopeState::Release
        }
    }

    /// Stage after one sample; `target_reached` tells whether the level has
    /// reached the current stage's target.
    pub fn advance(self, kind: EnvelopeKind, target_reached: bool) -> (r: Self)
        ensures
            r == next_stage(self, kind, target_reached),
    {
        match self {
            EnvelopeState::Idle => EnvelopeState::Idle,
            EnvelopeState::Attack => {
                if !target_reached {
                    EnvelopeState::Attack
                } else {
                    match kind {
                        EnvelopeKind::Adsr => EnvelopeState::Decay,
                        EnvelopeKind::AttackRelease => EnvelopeState::Sustain,
                    }
                }
            },
            EnvelopeState::Decay => {
                match kind {
                    EnvelopeKind::AttackRelease => EnvelopeState::Sustain,
                    EnvelopeKind::Adsr => {
                        if target_reached {
                            EnvelopeState::Sustain
                        } else {
                            EnvelopeState::Decay
                        }
                    },
                }
            },
            EnvelopeState::Sustain => EnvelopeState::Sustain,
            EnvelopeState::Release => {
                if target_reached {
                    EnvelopeState::Idle
                } else {
                    EnvelopeState::Release
                }
            },
        }
    }

    /// Whether the envelope has finished (returned to idle).
    pub fn is_finished(self) -> (r: bool)
        ensures
            r == (self == EnvelopeState::Idle),
    {
        self == EnvelopeState::Idle
    }
}

/// Per-sample stepping never starts a note: only a trigger enters the attack,
/// a released envelope can only stay in release or finish, and an idle
/// envelope stays idle until the next trigger.
pub proof fn lemma_stage_progress(s: EnvelopeState, kind: EnvelopeKind, reached: bool)
    ensures
        next_stage(s, kind, reached) == EnvelopeState::Attack ==> s == EnvelopeState::Attack,
        s == EnvelopeState::Release ==> (next_stage(s, kind, reached) == EnvelopeState::Release
            || next_stage(s, kind, reached) == EnvelopeState::Idle),
        s == EnvelopeState::Idle ==> next_stage(s, kind, reached) == EnvelopeState::Idle,
        next_stage(s, kind, reached) == EnvelopeState::Idle ==> (s == EnvelopeState::Idle
            || s == EnvelopeState::Release),
        kind == EnvelopeKind::AttackRelease ==> next_stage(s, kind, reached) != EnvelopeState::Decay,
{
}

/// A note-off never wakes an idle envelope and always leaves a sounding one
/// in its release stage; releasing twice is the same as releasing once.
pub proof fn lemma_release_idempotent(s: EnvelopeState)
    ensures
        released_stage(released_stage(s)) == released_stage(s),
        (released_stage(s) == EnvelopeState::Idle) == (s == EnvelopeState::Idle),
{
}

/// Each stage lasts until its target is reached, for every kind of
/// envelope: an attack that has not reached full level, a decay (of an ADSR)
/// that has not reached the sustain level and a release that has not reached
/// zero stay where they are. Once reached, the attack moves on to the decay
/// (ADSR) or straight to the sustain (attack-release), the decay to the
/// sustain, and the release to idle. Idle and sustain only change on a
/// trigger or a release.
pub proof fn lemma_stages_wait_for_targets(kind: EnvelopeKind, reached: bool)
    ensures
        next_stage(EnvelopeState::Attack, kind, false) == EnvelopeState::Attack,
        next_stage(EnvelopeState::Release, kind, false) == EnvelopeState::Release,
        next_stage(EnvelopeState::Decay, EnvelopeKind::Adsr, false) == EnvelopeState::Decay,
        next_stage(EnvelopeState::Attack, EnvelopeKind::Adsr, true) == EnvelopeState::Decay,
        next_stage(EnvelopeState::Attack, EnvelopeKind::AttackRelease, true) == EnvelopeState::Sustain,
        next_stage(EnvelopeState::Decay, kind, true) == EnvelopeState::Sustain,
        next_stage(EnvelopeState::Release, kind, true) == EnvelopeState::Idle,
        next_stage(EnvelopeState::Idle, kind, reached) == EnvelopeState::Idle,
        next_stage(EnvelopeState::Sustain, kind, reached) == EnvelopeState::Sustain,
{
}

} // verus!
