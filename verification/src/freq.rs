//! Equal-temperament pitch mapping: MIDI note number to oscillator
//! frequency, `440 * 2^((note - 69) / 12)` Hz with A4 = 440 Hz at note 69.
//!
//! Frequencies are fixed-point micro-hertz. A note splits into a pitch
//! class (its position within the octave) and an octave index; the twelve
//! pitch-class frequencies are tabulated for the lowest octave of the MIDI
//! range, and higher octaves double them exactly, so each octave step is an
//! exact factor of two.
use vstd::prelude::*;

verus! {

/// Frequency in micro-hertz of pitch class `pc` in the lowest octave of
/// the MIDI range (notes 0 to 8): `6_875_000` is 440 Hz / 64, the A of
/// that octave, and each entry above it is `2^(pc/12)` times it, rounded
/// to the nearest micro-hertz.
pub open spec fn spec_base_freq_microhz(pc: int) -> int {
    if pc == 0 { 6_875_000 }
    else if pc == 1 { 7_283_809 }
    else if pc == 2 { 7_716_927 }
    else if pc == 3 { 8_175_799 }
    else if pc == 4 { 8_661_957 }
    else if pc == 5 { 9_177_024 }
    else if pc == 6 { 9_722_718 }
    else if pc == 7 { 10_300_861 }
    else if pc == 8 { 10_913_382 }
    else if pc == 9 { 11_562_326 }
    else if pc == 10 { 12_249_857 }
    else { 12_978_272 }
}

/// `2^oct` for the eleven octave indices of the MIDI range.
pub open spec fn spec_octave_mult(oct: int) -> int {
    if oct <= 0 { 1 }
    else if oct == 1 { 2 }
    else if oct == 2 { 4 }
    else if oct == 3 { 8 }
    else if oct == 4 { 16 }
    else if oct == 5 { 32 }
    else if oct == 6 { 64 }
    else if oct == 7 { 128 }
    else if oct == 8 { 256 }
    else if oct == 9 { 512 }
    else { 1024 }
}

/// The pitch class of a note: notes 9, 21, 33, ... (the As) have pitch
/// class 0, so that note 69 lands exactly on the tabulated 440 Hz.
pub open spec fn spec_pitch_class(note: u8) -> int {
    (note + 3) % 12
}

/// The octave index of a note within the MIDI range.
pub open spec fn spec_octave(note: u8) -> int {
    (note + 3) / 12
}

/// Frequency of a MIDI note in micro-hertz.
pub open spec fn spec_freq_microhz(note: u8) -> int {
    spec_base_freq_microhz(spec_pitch_class(note)) * spec_octave_mult(spec_octave(note))
}

/// One octave up is exactly one doubling: `frequency(note + 12) ==
/// 2 * frequency(note)` throughout the MIDI range.
pub proof fn lemma_octave_doubles(note: u8)
    requires
        note + 12 <= 127,
    ensures
        spec_freq_microhz((note + 12) as u8) == 2 * spec_freq_microhz(note),
{
    let hi = (note + 12) as u8;
    assert(spec_pitch_class(hi) == spec_pitch_class(note));
    assert(spec_octave(hi) == spec_octave(note) + 1);
    assert(spec_octave(note) <= 9);
    assert(spec_octave_mult(spec_octave(note) + 1) == 2 * spec_octave_mult(spec_octave(note)));
}

/// Maps a MIDI note number to its equal-temperament frequency in
/// micro-hertz, exactly as [`spec_freq_microhz`] states; note 69 gives
/// 440 Hz exactly.
pub fn midi_note_to_freq(note: u8) -> (freq: u64)
    requires
        note <= 127,
    ensures
        freq as int == spec_freq_microhz(note),
        freq <= 13_300_000_000,
{
    let pc: u64 = (note as u64 + 3) % 12;
    let oct: u64 = (note as u64 + 3) / 12;
    let base: u64 = if pc == 0 { 6_875_000 }
        else if pc == 1 { 7_283_809 }
        else if pc == 2 { 7_716_927 }
        else if pc == 3 { 8_175_799 }
        else if pc == 4 { 8_661_957 }
        else if pc == 5 { 9_177_024 }
        else if pc == 6 { 9_722_718 }
        else if pc == 7 { 10_300_861 }
        else if pc == 8 { 10_913_382 }
        else if pc == 9 { 11_562_326 }
        else if pc == 10 { 12_249_857 }
        else { 12_978_272 };
    let mult: u64 = if oct == 0 { 1 }
        else if oct == 1 { 2 }
        else if oct == 2 { 4 }
        else if oct == 3 { 8 }
        else if oct == 4 { 16 }
        else if oct == 5 { 32 }
        else if oct == 6 { 64 }
        else if oct == 7 { 128 }
        else if oct == 8 { 256 }
        else if oct == 9 { 512 }
        else { 1024 };
    proof {
        assert(base * mult <= 13_300_000_000) by (nonlinear_arith)
            requires base <= 12_978_272, mult <= 1024;
    }
    base * mult
}

} // verus!
