//! The envelope engine: a five-stage state machine that shapes the
//! amplitude of the voice, advanced once per audio sample.
use vstd::prelude::*;
use crate::params::Params;
use crate::{LEVEL_SCALE, NANOS_PER_SEC, RELEASE_FLOOR};

verus! {

/// The stage of the amplitude envelope. Idle loops to itself until a
/// note-on moves the voice to Attack; Release falls back to Idle once the
/// level drops under [`RELEASE_FLOOR`].
#[derive(Clone, Copy, PartialEq, Eq, Structural, Debug)]
pub enum EnvelopeStage {
    Idle,
    Attack,
    Decay,
    Sustain,
    Release,
}

/// One step of the envelope state machine: from the current stage and level
/// (a fraction of [`LEVEL_SCALE`]), with `dt` nanoseconds elapsed since the
/// previous sample, to the next stage and level.
///
///   - Idle: unchanged.
///   - Attack: the level ramps linearly toward full scale over `attack`
///     nanoseconds; on reaching it, clamp to full scale and move to Decay.
///   - Decay: the level falls linearly from full scale toward `sustain`
///     over `decay` nanoseconds; on reaching it, clamp to `sustain` and
///     move to Sustain.
///   - Sustain: unchanged, until an external note-off.
///   - Release: the level falls in proportion to itself over `release`
///     nanoseconds; under [`RELEASE_FLOOR`] it is clamped to 0 and the
///     stage moves to Idle.
pub open spec fn spec_env_step(stage: EnvelopeStage, level: u64, dt: u64, p: Params) -> (EnvelopeStage, int) {
    match stage {
        EnvelopeStage::Idle => (EnvelopeStage::Idle, level as int),
        EnvelopeStage::Attack => {
            let next = level + dt * LEVEL_SCALE / (p.attack as int);
            if next >= LEVEL_SCALE {
                (EnvelopeStage::Decay, LEVEL_SCALE as int)
            } else {
                (EnvelopeStage::Attack, next)
            }
        }
        EnvelopeStage::Decay => {
            let next = level - (LEVEL_SCALE - p.sustain) * dt / (p.decay as int);
            if next <= p.sustain {
                (EnvelopeStage::Sustain, p.sustain as int)
            } else {
                (EnvelopeStage::Decay, next)
            }
        }
        EnvelopeStage::Sustain => (EnvelopeStage::Sustain, level as int),
        EnvelopeStage::Release => {
            let next = level - level * dt / (p.release as int);
            if next < RELEASE_FLOOR {
                (EnvelopeStage::Idle, 0)
            } else {
                (EnvelopeStage::Release, next)
            }
        }
    }
}

/// A step keeps the level within `[0, LEVEL_SCALE]`, and a step that lands
/// in Idle lands at level 0.
pub proof fn lemma_env_step_bounds(stage: EnvelopeStage, level: u64, dt: u64, p: Params)
    requires
        p.wf(),
        level <= LEVEL_SCALE,
    ensures
        0 <= spec_env_step(stage, level, dt, p).1 <= LEVEL_SCALE,
        spec_env_step(stage, level, dt, p).0 == EnvelopeStage::Idle ==> spec_env_step(stage, level, dt, p).1 == 0 || stage == EnvelopeStage::Idle,
{
    match stage {
        EnvelopeStage::Attack => {
            assert(dt * LEVEL_SCALE / (p.attack as int) >= 0) by (nonlinear_arith)
                requires 1 <= p.attack;
        }
        EnvelopeStage::Decay => {
            assert((LEVEL_SCALE - p.sustain) * dt / (p.decay as int) >= 0) by (nonlinear_arith)
                requires p.sustain <= LEVEL_SCALE, 1 <= p.decay;
        }
        EnvelopeStage::Release => {
            assert(level * dt / (p.release as int) >= 0) by (nonlinear_arith)
                requires 1 <= p.release;
            assert(level * dt / (p.release as int) <= level * dt) by (nonlinear_arith)
                requires 1 <= p.release;
        }
        _ => {}
    }
}

/// Advances the envelope by one sample of `dt` nanoseconds, exactly as
/// [`spec_env_step`] states; the returned level stays within scale.
pub fn env_step(stage: EnvelopeStage, level: u64, dt: u64, p: &Params) -> (r: (EnvelopeStage, u64))
    requires
        p.wf(),
        level <= LEVEL_SCALE,
        dt <= NANOS_PER_SEC,
    ensures
        (r.0, r.1 as int) == spec_env_step(stage, level, dt, *p),
        r.1 <= LEVEL_SCALE,
{
    proof {
        lemma_env_step_bounds(stage, level, dt, *p);
    }
    match stage {
        EnvelopeStage::Idle => (EnvelopeStage::Idle, level),
        EnvelopeStage::Attack => {
            let step: u64 = dt * LEVEL_SCALE / p.attack;
            let next: u64 = level + step;
            if next >= LEVEL_SCALE {
                (EnvelopeStage::Decay, LEVEL_SCALE)
            } else {
                (EnvelopeStage::Attack, next)
            }
        }
        EnvelopeStage::Decay => {
            proof {
                assert((LEVEL_SCALE - p.sustain) * dt <= 1_000_000_000_000_000_000) by (nonlinear_arith)
                    requires p.sustain <= LEVEL_SCALE, dt <= NANOS_PER_SEC;
            }
            let step: u64 = (LEVEL_SCALE - p.sustain) * dt / p.decay;
            if level <= p.sustain + step {
                (EnvelopeStage::Sustain, p.sustain)
            } else {
                (EnvelopeStage::Decay, level - step)
            }
        }
        EnvelopeStage::Sustain => (EnvelopeStage::Sustain, level),
        EnvelopeStage::Release => {
            proof {
                assert(level * dt <= 1_000_000_000_000_000_000) by (nonlinear_arith)
                    requires level <= LEVEL_SCALE, dt <= NANOS_PER_SEC;
            }
            let step: u64 = level * dt / p.release;
            if step >= level || level - step < RELEASE_FLOOR {
                (EnvelopeStage::Idle, 0)
            } else {
                (EnvelopeStage::Release, level - step)
            }
        }
    }
}

} // verus!
