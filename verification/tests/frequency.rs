use sine_synth::freq::midi_note_to_freq;

#[test]
fn concert_a_is_exact() {
    // A4, MIDI note 69, maps to exactly 440 Hz (in micro-hertz).
    assert_eq!(midi_note_to_freq(69), 440_000_000);
}

#[test]
fn octave_above_concert_a_is_exact() {
    // One octave up is an exact doubling: 880 Hz.
    assert_eq!(midi_note_to_freq(81), 880_000_000);
}

#[test]
fn octave_below_concert_a_is_exact() {
    assert_eq!(midi_note_to_freq(57), 220_000_000);
}

#[test]
fn every_octave_step_doubles() {
    for note in 0u8..=115u8 {
        assert_eq!(midi_note_to_freq(note + 12), 2 * midi_note_to_freq(note));
    }
}

#[test]
fn middle_c_within_tolerance() {
    // Middle C, MIDI note 60, is 261.625565 Hz in equal temperament; the
    // fixed-point mapping lands within a micro-hertz rounding of it.
    let f = midi_note_to_freq(60);
    assert!(261_620_000 <= f && f <= 261_630_000, "got {f}");
}

#[test]
fn midi_range_extremes() {
    // Note 0 is 8.175799 Hz; note 127 is about 12543.854 Hz.
    assert_eq!(midi_note_to_freq(0), 8_175_799);
    let top = midi_note_to_freq(127);
    assert!(12_543_000_000 <= top && top <= 12_545_000_000, "got {top}");
}

#[test]
fn frequency_is_strictly_increasing() {
    for note in 0u8..127u8 {
        assert!(midi_note_to_freq(note) < midi_note_to_freq(note + 1));
    }
}
