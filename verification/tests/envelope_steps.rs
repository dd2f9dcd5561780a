use sine_synth::envelope::{env_step, EnvelopeStage};
use sine_synth::params::Params;
use sine_synth::{LEVEL_SCALE, RELEASE_FLOOR};

fn params() -> Params {
    Params::default()
}

#[test]
fn idle_changes_nothing() {
    let (stage, level) = env_step(EnvelopeStage::Idle, 0, 22675, &params());
    assert_eq!(stage, EnvelopeStage::Idle);
    assert_eq!(level, 0);
}

#[test]
fn attack_ramps_by_dt_over_attack() {
    let p = params();
    let (stage, level) = env_step(EnvelopeStage::Attack, 0, 1_000_000, &p);
    // 1_000_000 ns over the 10_000_000 ns attack = a tenth of full scale.
    assert_eq!(stage, EnvelopeStage::Attack);
    assert_eq!(level, 100_000_000);
}

#[test]
fn attack_clamps_at_full_scale_and_enters_decay() {
    let p = params();
    let (stage, level) = env_step(EnvelopeStage::Attack, 999_999_999, 1_000_000, &p);
    assert_eq!(stage, EnvelopeStage::Decay);
    assert_eq!(level, LEVEL_SCALE);
}

#[test]
fn decay_falls_toward_sustain() {
    let p = params();
    // Step: (1 - sustain) * dt / decay = 500_000_000 * 1_000_000 / 100_000_000.
    let (stage, level) = env_step(EnvelopeStage::Decay, LEVEL_SCALE, 1_000_000, &p);
    assert_eq!(stage, EnvelopeStage::Decay);
    assert_eq!(level, LEVEL_SCALE - 5_000_000);
}

#[test]
fn decay_clamps_at_sustain_and_holds() {
    let p = params();
    let (stage, level) = env_step(EnvelopeStage::Decay, 500_001_000, 1_000_000, &p);
    assert_eq!(stage, EnvelopeStage::Sustain);
    assert_eq!(level, p.sustain);
    let (stage2, level2) = env_step(stage, level, 22675, &p);
    assert_eq!(stage2, EnvelopeStage::Sustain);
    assert_eq!(level2, p.sustain);
}

#[test]
fn decay_clamps_even_from_below_sustain() {
    // A decay step that starts under the sustain target is clamped up to it,
    // exactly as the unclamped fall-then-clamp rule states.
    let p = params();
    let (stage, level) = env_step(EnvelopeStage::Decay, 100_000_000, 1_000_000, &p);
    assert_eq!(stage, EnvelopeStage::Sustain);
    assert_eq!(level, p.sustain);
}

#[test]
fn release_falls_in_proportion_to_the_level() {
    let p = params();
    // Step: level * dt / release = 500_000_000 * 1_000_000 / 200_000_000.
    let (stage, level) = env_step(EnvelopeStage::Release, 500_000_000, 1_000_000, &p);
    assert_eq!(stage, EnvelopeStage::Release);
    assert_eq!(level, 500_000_000 - 2_500_000);
}

#[test]
fn release_clamps_to_zero_under_the_floor() {
    let p = params();
    let (stage, level) = env_step(EnvelopeStage::Release, RELEASE_FLOOR, 1_000_000, &p);
    assert_eq!(stage, EnvelopeStage::Idle);
    assert_eq!(level, 0);
}

#[test]
fn release_longer_than_the_step_still_ends() {
    // A step longer than the whole release would push the level below zero;
    // it is clamped to zero and the envelope goes Idle.
    let mut p = params();
    p.set_parameter(4, 1);
    let (stage, level) = env_step(EnvelopeStage::Release, 800_000_000, 22675, &p);
    assert_eq!(stage, EnvelopeStage::Idle);
    assert_eq!(level, 0);
}

#[test]
fn full_cycle_stays_within_scale() {
    // Drive one whole attack/decay/sustain/release cycle and watch the
    // level never leave [0, LEVEL_SCALE].
    let p = params();
    let dt: u64 = 22675; // one sample at 44100 Hz
    let mut stage = EnvelopeStage::Attack;
    let mut level: u64 = 0;
    let mut released = false;
    for i in 0..200_000u32 {
        if stage == EnvelopeStage::Sustain && !released {
            stage = EnvelopeStage::Release;
            released = true;
        }
        let (s, l) = env_step(stage, level, dt, &p);
        stage = s;
        level = l;
        assert!(level <= LEVEL_SCALE, "level {level} out of scale at step {i}");
        if stage == EnvelopeStage::Idle {
            break;
        }
    }
    assert_eq!(stage, EnvelopeStage::Idle);
    assert_eq!(level, 0);
}
