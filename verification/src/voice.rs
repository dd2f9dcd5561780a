//! The voice synthesizer: oscillator time, current note and envelope state,
//! mutated by MIDI events and consumed by the per-sample synthesis loop.
use vstd::prelude::*;
use crate::envelope::{EnvelopeStage, env_step, spec_env_step, lemma_env_step_bounds};
use crate::freq::{midi_note_to_freq, spec_freq_microhz};
use crate::params::Params;
use crate::{LEVEL_SCALE, NANOS_PER_SEC};

verus! {

/// The single sound-producing unit. The envelope level is a fraction of
/// [`LEVEL_SCALE`]; `time` counts nanoseconds since the last note-on and
/// is never otherwise reset, so it grows for as long as a note is held (a
/// known limitation, kept as designed).
#[derive(Clone, Copy, PartialEq, Eq, Debug)]
pub struct Voice {
    /// Samples per second, positive; set at initialization.
    pub sample_rate: u64,
    /// Nanoseconds since the last note-on.
    pub time: u64,
    /// The active MIDI note, or `None` when the envelope is Idle.
    pub current_note: Option<u8>,
    /// Amplitude multiplier in `[0, LEVEL_SCALE]`.
    pub envelope_level: u64,
    /// Stage of the amplitude envelope.
    pub envelope_stage: EnvelopeStage,
}

/// One rendered sample, before the host converts it to an audio value:
/// the actual signal is `sin(2 pi * frequency * time) * amplitude`, with
/// `amplitude` a fraction of [`LEVEL_SCALE`]. A voice with no active note
/// renders `Silence`, which stands for the exact value 0.
#[derive(Clone, Copy, PartialEq, Eq, Debug)]
pub enum RenderedSample {
    /// No active note: the output value is exactly 0.
    Silence,
    /// An active note: a sine at `freq_microhz`, evaluated at `time_ns`
    /// nanoseconds since note-on, scaled by `amplitude` (envelope level
    /// times volume, a fraction of [`LEVEL_SCALE`]).
    Tone { freq_microhz: u64, time_ns: u64, amplitude: u64 },
}

/// One MIDI channel voice message: status byte 128 is note-off, 144 is
/// note-on, anything else is ignored by the voice.
#[derive(Clone, Copy, PartialEq, Eq, Debug)]
pub struct MidiMessage {
    pub status: u8,
    pub note: u8,
}

impl Voice {
    /// A well-formed voice: positive sample rate, level within scale, a
    /// note exactly when the envelope is not Idle (and then a note within
    /// the MIDI range), and a level of 0 whenever Idle.
    pub open spec fn wf(self) -> bool {
        &&& 1 <= self.sample_rate
        &&& self.envelope_level <= LEVEL_SCALE
        &&& (self.current_note is None <==> self.envelope_stage == EnvelopeStage::Idle)
        &&& (self.envelope_stage == EnvelopeStage::Idle ==> self.envelope_level == 0)
        &&& (self.current_note matches Some(n) ==> n <= 127)
    }

    /// Records the sample rate the host supplies at initialization.
    pub fn set_sample_rate(&mut self, sample_rate: u64)
        requires
            old(self).wf(),
            1 <= sample_rate,
        ensures
            *final(self) == (Voice { sample_rate, ..*old(self) }),
            final(self).wf(),
    {
        self.sample_rate = sample_rate;
    }

    /// The elapsed time each sample covers, in nanoseconds.
    pub fn time_per_sample(&self) -> (dt: u64)
        requires
            self.wf(),
        ensures
            dt == spec_time_per_sample(*self),
            dt <= NANOS_PER_SEC,
    {
        NANOS_PER_SEC / self.sample_rate
    }

    /// Starts a note: the last note-on always wins, the envelope restarts
    /// its attack from the current level, and oscillator time resets.
    pub fn note_on(&mut self, note: u8)
        requires
            old(self).wf(),
            note <= 127,
        ensures
            *final(self) == spec_note_on(*old(self), note),
            final(self).wf(),
    {
        self.current_note = Some(note);
        self.envelope_stage = EnvelopeStage::Attack;
        self.time = 0;
    }

    /// Ends a note: the envelope moves to Release only if `note` is the
    /// active note; a note-off for any other note changes nothing.
    pub fn note_off(&mut self, note: u8)
        requires
            old(self).wf(),
        ensures
            *final(self) == spec_note_off(*old(self), note),
            old(self).current_note != Some(note) ==> *final(self) == *old(self),
            final(self).wf(),
    {
        let is_current = match self.current_note {
            Some(n) => n == note,
            None => false,
        };
        if is_current {
            self.envelope_stage = EnvelopeStage::Release;
        }
    }
}

/// What each nanosecond-per-sample step is for a voice.
pub open spec fn spec_time_per_sample(v: Voice) -> int {
    NANOS_PER_SEC as int / v.sample_rate as int
}

/// The state after a note-on: the note is taken over, the envelope enters
/// Attack at its current level, and oscillator time restarts at 0.
pub open spec fn spec_note_on(v: Voice, note: u8) -> Voice {
    Voice {
        current_note: Some(note),
        envelope_stage: EnvelopeStage::Attack,
        time: 0,
        ..v
    }
}

/// The state after a note-off: Release if the ended note is the active
/// one, otherwise unchanged.
pub open spec fn spec_note_off(v: Voice, note: u8) -> Voice {
    if v.current_note == Some(note) {
        Voice { envelope_stage: EnvelopeStage::Release, ..v }
    } else {
        v
    }
}

/// The state after advancing the envelope by `dt` nanoseconds: stage and
/// level step as [`spec_env_step`] says, and the note is cleared exactly
/// when the envelope lands in Idle (a finished release).
pub open spec fn spec_update_envelope(v: Voice, p: Params, dt: u64) -> Voice {
    let r = spec_env_step(v.envelope_stage, v.envelope_level, dt, p);
    Voice {
        envelope_stage: r.0,
        envelope_level: r.1 as u64,
        current_note: if r.0 == EnvelopeStage::Idle { None } else { v.current_note },
        ..v
    }
}

/// Advancing the envelope preserves well-formedness.
pub proof fn lemma_update_envelope_wf(v: Voice, p: Params, dt: u64)
    requires
        v.wf(),
        p.wf(),
    ensures
        spec_update_envelope(v, p, dt).wf(),
{
    lemma_env_step_bounds(v.envelope_stage, v.envelope_level, dt, p);
}

impl Voice {
    /// Advances the envelope by one sample of `dt` nanoseconds, exactly as
    /// [`spec_update_envelope`] states; when the release finishes, the
    /// active note is cleared.
    pub fn update_envelope(&mut self, p: &Params, delta_time: u64)
        requires
            old(self).wf(),
            p.wf(),
            delta_time <= NANOS_PER_SEC,
        ensures
            *final(self) == spec_update_envelope(*old(self), *p, delta_time),
            final(self).wf(),
    {
        proof {
            lemma_update_envelope_wf(*self, *p, delta_time);
        }
        let r = env_step(self.envelope_stage, self.envelope_level, delta_time, p);
        self.envelope_stage = r.0;
        self.envelope_level = r.1;
        if self.envelope_stage == EnvelopeStage::Idle {
            self.current_note = None;
        }
    }
}

impl Default for Voice {
    /// A fresh voice: 44100 Hz, no note, envelope Idle at level 0.
    fn default() -> (v: Voice)
        ensures
            v.sample_rate == 44100,
            v.time == 0,
            v.current_note is None,
            v.envelope_level == 0,
            v.envelope_stage == EnvelopeStage::Idle,
            v.wf(),
    {
        Voice {
            sample_rate: 44100,
            time: 0,
            current_note: None,
            envelope_level: 0,
            envelope_stage: EnvelopeStage::Idle,
        }
    }
}

/// Addition on nanosecond counters that pins at the top of the range
/// instead of wrapping: a held note keeps its time growing until the
/// counter can grow no further.
pub open spec fn spec_sat_add(a: u64, b: u64) -> u64 {
    if a + b > u64::MAX {
        u64::MAX
    } else {
        (a + b) as u64
    }
}

/// What a voice renders, after its envelope has been advanced: a sine of
/// the active note's frequency at the current oscillator time, scaled by
/// envelope level and volume — or exact silence when no note is active.
pub open spec fn spec_render_output(v: Voice, p: Params) -> RenderedSample {
    match v.current_note {
        Some(note) => RenderedSample::Tone {
            freq_microhz: spec_freq_microhz(note) as u64,
            time_ns: v.time,
            amplitude: (v.envelope_level * p.volume / (LEVEL_SCALE as int)) as u64,
        },
        None => RenderedSample::Silence,
    }
}

/// One whole sample step: advance the envelope by one sample's time,
/// render from the advanced state, then advance oscillator time.
pub open spec fn spec_step(v: Voice, p: Params) -> (Voice, RenderedSample) {
    let dt = spec_time_per_sample(v) as u64;
    let v1 = spec_update_envelope(v, p, dt);
    let out = spec_render_output(v1, p);
    (Voice { time: spec_sat_add(v1.time, dt), ..v1 }, out)
}

/// A sample step preserves well-formedness.
pub proof fn lemma_step_wf(v: Voice, p: Params)
    requires
        v.wf(),
        p.wf(),
    ensures
        spec_step(v, p).0.wf(),
{
    let dt = spec_time_per_sample(v) as u64;
    lemma_update_envelope_wf(v, p, dt);
}

impl Voice {
    /// Renders one sample: advances the envelope, reads the oscillator
    /// inputs for the active note (silence when there is none), then
    /// advances oscillator time. The result and the new state are exactly
    /// those of [`spec_step`]; a voice with no active note renders
    /// `Silence`, whatever the parameters hold.
    pub fn render_sample(&mut self, p: &Params) -> (out: RenderedSample)
        requires
            old(self).wf(),
            p.wf(),
        ensures
            out == spec_step(*old(self), *p).1,
            *final(self) == spec_step(*old(self), *p).0,
            final(self).wf(),
            old(self).current_note is None ==> out == RenderedSample::Silence,
    {
        proof {
            lemma_step_wf(*self, *p);
        }
        let dt = self.time_per_sample();
        self.update_envelope(p, dt);
        let out = match self.current_note {
            Some(note) => {
                let freq = midi_note_to_freq(note);
                proof {
                    assert(self.envelope_level * p.volume <= 1_000_000_000_000_000_000) by (nonlinear_arith)
                        requires self.envelope_level <= LEVEL_SCALE, p.volume <= LEVEL_SCALE;
                }
                let amplitude: u64 = self.envelope_level * p.volume / LEVEL_SCALE;
                RenderedSample::Tone { freq_microhz: freq, time_ns: self.time, amplitude }
            }
            None => RenderedSample::Silence,
        };
        if self.time <= u64::MAX - dt {
            self.time = self.time + dt;
        } else {
            self.time = u64::MAX;
        }
        out
    }
}

/// The state and the rendered samples after `n` whole sample steps.
pub open spec fn spec_run(v: Voice, p: Params, n: nat) -> (Voice, Seq<RenderedSample>)
    decreases n,
{
    if n == 0 {
        (v, Seq::empty())
    } else {
        let prev = spec_run(v, p, (n - 1) as nat);
        let s = spec_step(prev.0, p);
        (s.0, prev.1.push(s.1))
    }
}

/// Law: every state a well-formed voice reaches under the synthesis loop
/// is well-formed — in particular, for any positive parameters with
/// sustain and volume within scale, the envelope level stays within
/// `[0, LEVEL_SCALE]` through the whole attack, decay, sustain and
/// release cycle, however many samples are rendered.
pub proof fn lemma_run_wf(v: Voice, p: Params, n: nat)
    requires
        v.wf(),
        p.wf(),
    ensures
        spec_run(v, p, n).0.wf(),
        spec_run(v, p, n).0.envelope_level <= LEVEL_SCALE,
    decreases n,
{
    if n > 0 {
        lemma_run_wf(v, p, (n - 1) as nat);
        lemma_step_wf(spec_run(v, p, (n - 1) as nat).0, p);
    }
}

/// Law: a voice with no active note renders exact silence, whatever the
/// parameters hold — every sample of a run from such a state is
/// `Silence`, and no note appears on its own.
pub proof fn lemma_idle_run_silent(v: Voice, p: Params, n: nat)
    requires
        v.wf(),
        p.wf(),
        v.current_note is None,
    ensures
        spec_run(v, p, n).0.current_note is None,
        forall|i: int| 0 <= i < n ==> spec_run(v, p, n).1[i] == RenderedSample::Silence,
    decreases n,
{
    if n > 0 {
        lemma_idle_run_silent(v, p, (n - 1) as nat);
        let prev = spec_run(v, p, (n - 1) as nat);
        lemma_run_wf(v, p, (n - 1) as nat);
        lemma_run_len(v, p, (n - 1) as nat);
        let s = spec_step(prev.0, p);
        assert(s.1 == RenderedSample::Silence);
        assert forall|i: int| 0 <= i < n implies spec_run(v, p, n).1[i] == RenderedSample::Silence by {
            if i < n - 1 {
                assert(spec_run(v, p, n).1[i] == prev.1[i]);
            } else {
                assert(spec_run(v, p, n).1[i] == s.1);
            }
        }
    }
}

/// A run of `n` sample steps renders exactly `n` samples.
pub proof fn lemma_run_len(v: Voice, p: Params, n: nat)
    ensures
        spec_run(v, p, n).1.len() == n,
    decreases n,
{
    if n > 0 {
        lemma_run_len(v, p, (n - 1) as nat);
    }
}

impl Voice {
    /// Renders a block of `num_samples` samples in order, as the host
    /// requests once per audio block; the host writes each rendered value
    /// to every output channel.
    pub fn process(&mut self, p: &Params, num_samples: usize) -> (out: Vec<RenderedSample>)
        requires
            old(self).wf(),
            p.wf(),
        ensures
            out@.len() == num_samples,
            out@ == spec_run(*old(self), *p, num_samples as nat).1,
            *final(self) == spec_run(*old(self), *p, num_samples as nat).0,
            final(self).wf(),
    {
        let ghost v0 = *self;
        let mut out: Vec<RenderedSample> = Vec::new();
        let mut i: usize = 0;
        while i < num_samples
            invariant
                i <= num_samples,
                self.wf(),
                p.wf(),
                out@.len() == i,
                out@ == spec_run(v0, *p, i as nat).1,
                *self == spec_run(v0, *p, i as nat).0,
            decreases num_samples - i,
        {
            let s = self.render_sample(p);
            out.push(s);
            i = i + 1;
        }
        out
    }

    /// Applies one MIDI voice message: status 128 ends the carried note,
    /// 144 starts it, and any other status is ignored.
    pub fn process_event(&mut self, status: u8, note: u8)
        requires
            old(self).wf(),
            note <= 127,
        ensures
            *final(self) == spec_apply_message(*old(self), MidiMessage { status, note }),
            final(self).wf(),
    {
        match status {
            128 => self.note_off(note),
            144 => self.note_on(note),
            _ => (),
        }
    }

    /// Applies a block's queued MIDI events in arrival order, before any
    /// sample of the block is rendered.
    pub fn process_events(&mut self, events: &Vec<MidiMessage>)
        requires
            old(self).wf(),
            forall|i: int| 0 <= i < events@.len() ==> (#[trigger] events@[i]).note <= 127,
        ensures
            *final(self) == spec_apply_messages(*old(self), events@),
            final(self).wf(),
    {
        let ghost v0 = *self;
        let mut i: usize = 0;
        while i < events.len()
            invariant
                i <= events@.len(),
                self.wf(),
                forall|j: int| 0 <= j < events@.len() ==> (#[trigger] events@[j]).note <= 127,
                *self == spec_apply_messages(v0, events@.take(i as int)),
            decreases events@.len() - i,
        {
            let ev = events[i];
            self.process_event(ev.status, ev.note);
            proof {
                assert(events@.take(i + 1).drop_last() =~= events@.take(i as int));
                assert(events@.take(i + 1).last() == events@[i as int]);
            }
            i = i + 1;
        }
        proof {
            assert(events@.take(events@.len() as int) =~= events@);
        }
    }
}

/// The state after one MIDI message is applied.
pub open spec fn spec_apply_message(v: Voice, m: MidiMessage) -> Voice {
    if m.status == 128 {
        spec_note_off(v, m.note)
    } else if m.status == 144 {
        spec_note_on(v, m.note)
    } else {
        v
    }
}

/// The state after a sequence of MIDI messages is applied in order.
pub open spec fn spec_apply_messages(v: Voice, ms: Seq<MidiMessage>) -> Voice
    decreases ms.len(),
{
    if ms.len() == 0 {
        v
    } else {
        spec_apply_message(spec_apply_messages(v, ms.drop_last()), ms.last())
    }
}

/// Law: a repeated note-off for the same note is a no-op — once a note-off
/// has been applied, applying it again leaves the state exactly as it was.
pub proof fn lemma_note_off_idempotent(v: Voice, note: u8)
    ensures
        spec_note_off(spec_note_off(v, note), note) == spec_note_off(v, note),
{
}

} // verus!
