//! Shared control parameters of the voice, read every sample by the
//! synthesis loop and written at arbitrary times by a controller.
use vstd::prelude::*;
use crate::LEVEL_SCALE;

verus! {

/// The five knobs of the voice. `volume` and `sustain` are fractions of
/// [`LEVEL_SCALE`]; `attack`, `decay` and `release` are stage durations in
/// nanoseconds and must stay positive (the envelope divides by them).
#[derive(Clone, Copy, PartialEq, Eq, Debug)]
pub struct Params {
    /// Output gain in `[0, LEVEL_SCALE]`.
    pub volume: u64,
    /// Attack duration in nanoseconds, positive.
    pub attack: u64,
    /// Decay duration in nanoseconds, positive.
    pub decay: u64,
    /// Level held after decay, in `[0, LEVEL_SCALE]`.
    pub sustain: u64,
    /// Release duration in nanoseconds, positive.
    pub release: u64,
}

impl Params {
    /// Valid parameters: levels within scale, durations positive.
    pub open spec fn wf(self) -> bool {
        &&& self.volume <= LEVEL_SCALE
        &&& self.sustain <= LEVEL_SCALE
        &&& 1 <= self.attack
        &&& 1 <= self.decay
        &&& 1 <= self.release
    }

    /// Reads a parameter by its stable index; an unknown index reads 0.
    pub fn get_parameter(&self, index: i32) -> (value: u64)
        ensures
            index == 0 ==> value == self.volume,
            index == 1 ==> value == self.attack,
            index == 2 ==> value == self.decay,
            index == 3 ==> value == self.sustain,
            index == 4 ==> value == self.release,
            !(0 <= index <= 4) ==> value == 0,
    {
        match index {
            0 => self.volume,
            1 => self.attack,
            2 => self.decay,
            3 => self.sustain,
            4 => self.release,
            _ => 0,
        }
    }

    /// Writes a parameter by its stable index; an unknown index is ignored.
    /// The value must be valid for the targeted knob: within scale for
    /// volume and sustain, positive for the three durations.
    pub fn set_parameter(&mut self, index: i32, value: u64)
        requires
            (index == 0 || index == 3) ==> value <= LEVEL_SCALE,
            (index == 1 || index == 2 || index == 4) ==> 1 <= value,
            old(self).wf(),
        ensures
            index == 0 ==> *final(self) == (Params { volume: value, ..*old(self) }),
            index == 1 ==> *final(self) == (Params { attack: value, ..*old(self) }),
            index == 2 ==> *final(self) == (Params { decay: value, ..*old(self) }),
            index == 3 ==> *final(self) == (Params { sustain: value, ..*old(self) }),
            index == 4 ==> *final(self) == (Params { release: value, ..*old(self) }),
            !(0 <= index <= 4) ==> *final(self) == *old(self),
            final(self).wf(),
    {
        match index {
            0 => self.volume = value,
            1 => self.attack = value,
            2 => self.decay = value,
            3 => self.sustain = value,
            4 => self.release = value,
            _ => (),
        }
    }

    /// The display name of a parameter; an unknown index has an empty name.
    pub fn get_parameter_name(&self, index: i32) -> (name: &'static str)
        ensures
            index == 0 ==> name@ == "Volume"@,
            index == 1 ==> name@ == "Attack"@,
            index == 2 ==> name@ == "Decay"@,
            index == 3 ==> name@ == "Sustain"@,
            index == 4 ==> name@ == "Release"@,
            !(0 <= index <= 4) ==> name@ == ""@,
    {
        match index {
            0 => "Volume",
            1 => "Attack",
            2 => "Decay",
            3 => "Sustain",
            4 => "Release",
            _ => "",
        }
    }

    /// The display unit of a parameter: percent for volume, seconds for the
    /// durations, none for sustain or an unknown index.
    pub fn get_parameter_label(&self, index: i32) -> (label: &'static str)
        ensures
            index == 0 ==> label@ == "%"@,
            (index == 1 || index == 2 || index == 4) ==> label@ == "s"@,
            !(index == 0 || index == 1 || index == 2 || index == 4) ==> label@ == ""@,
    {
        match index {
            0 => "%",
            1 | 2 | 4 => "s",
            _ => "",
        }
    }
}

impl Default for Params {
    /// Defaults: volume 0.5, attack 0.01 s, decay 0.1 s, sustain 0.5,
    /// release 0.2 s.
    fn default() -> (p: Params)
        ensures
            p.volume == LEVEL_SCALE / 2,
            p.attack == 10_000_000,
            p.decay == 100_000_000,
            p.sustain == LEVEL_SCALE / 2,
            p.release == 200_000_000,
            p.wf(),
    {
        Params {
            volume: 500_000_000,
            attack: 10_000_000,
            decay: 100_000_000,
            sustain: 500_000_000,
            release: 200_000_000,
        }
    }
}

} // verus!
