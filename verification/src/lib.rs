//! A monophonic synthesizer voice: MIDI note on/off events drive a sine
//! oscillator shaped by a five-stage (Idle/Attack/Decay/Sustain/Release)
//! amplitude envelope, advanced once per audio sample.
//!
//! All quantities are fixed-point integers so that every computation can be
//! stated and proved exactly:
//!   - envelope levels, volume and sustain are fractions of [`LEVEL_SCALE`]
//!     (`LEVEL_SCALE` stands for 1.0);
//!   - durations (attack, decay, release, elapsed time) are nanoseconds;
//!   - frequencies are micro-hertz.
//! A host adapter converts these to floating point at the edge and evaluates
//! the sine itself; the core never touches a float.
use vstd::prelude::*;

pub mod envelope;
pub mod freq;
pub mod params;
pub mod voice;

verus! {

/// Fixed-point scale for envelope levels, volume and sustain: this value
/// stands for 1.0, and every level lies in `[0, LEVEL_SCALE]`.
pub const LEVEL_SCALE: u64 = 1_000_000_000;

/// Nanoseconds in one second; durations and elapsed time are counted in
/// nanoseconds, so the per-sample time step is `NANOS_PER_SEC / sample_rate`.
pub const NANOS_PER_SEC: u64 = 1_000_000_000;

/// Release clamp threshold, 0.001 of full scale: once the releasing level
/// falls below this, it is clamped to 0 and the voice returns to Idle.
pub const RELEASE_FLOOR: u64 = 1_000_000;

} // verus!
