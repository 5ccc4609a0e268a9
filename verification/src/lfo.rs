//! LFO routing destinations and waveforms.

use vstd::prelude::*;

use crate::params::{lfo_destination_for_cc, lfo_waveform_for_cc};

verus! {

/// LFO routing destinations
#[derive(Debug, Clone, Copy, PartialEq, Eq, Structural)]
pub enum LfoDestination {
    Off,
    /// Modulate oscillator pitch (vibrato)
    Pitch,
    /// Modulate filter cutoff
    FilterCutoff,
    /// Modulate amplitude (tremolo)
    Amplitude,
}

/// Display name of an LFO destination.
pub open spec fn lfo_destination_name(d: LfoDestination) -> Seq<char> {
    match d {
        LfoDestination::Off => "Off"@,
        LfoDestination::Pitch => "Pitch"@,
        LfoDestination::FilterCutoff => "Filter"@,
        LfoDestination::Amplitude => "Amplitude"@,
    }
}

/// Every LFO destination, in selector order.
pub open spec fn all_lfo_destinations() -> Seq<LfoDestination> {
    seq![LfoDestination::Off, LfoDestination::Pitch, LfoDestination::FilterCutoff, LfoDestination::Amplitude]
}

/// The LFO destination at a selector position: 0 is off, 1 pitch, 2 the
/// filter cutoff, and any higher position the amplitude.
pub open spec fn lfo_destination_at(index: u8) -> LfoDestination {
    if index == 0 {
        LfoDestination::Off
    } else if index == 1 {
        LfoDestination::Pitch
    } else if index == 2 {
        LfoDestination::FilterCutoff
    } else {
        LfoDestination::Amplitude
    }
}

impl LfoDestination {
    /// The destination at a selector position (0 = Off, 1 = Pitch,
    /// 2 = Filter, 3 and above = Amplitude).
    pub fn from_index(index: u8) -> (r: Self)
        ensures
            r == lfo_destination_at(index),
    {
        match index {
            0 => LfoDestination::Off,
            1 => LfoDestination::Pitch,
            2 => LfoDestination::FilterCutoff,
            _ => LfoDestination::Amplitude,
        }
    }

    /// Get display name
    pub fn name(&self) -> (r: &'static str)
        ensures
            r@ == lfo_destination_name(*self),
    {
        match self {
            LfoDestination::Off => "Off",
            LfoDestination::Pitch => "Pitch",
            LfoDestination::FilterCutoff => "Filter",
            LfoDestination::Amplitude => "Amplitude",
        }
    }

    /// Get all destinations
    pub fn all() -> (r: &'static [LfoDestination])
        ensures
            r@ == all_lfo_destinations(),
    {
        &[
            LfoDestination::Off,
            LfoDestination::Pitch,
            LfoDestination::FilterCutoff,
            LfoDestination::Amplitude,
        ]
    }
}

impl Default for LfoDestination {
    fn default() -> (r: Self)
        ensures
            r == LfoDestination::Off,
    {
        LfoDestination::Off
    }
}

/// LFO waveform types
#[derive(Debug, Clone, Copy, PartialEq, Eq, Structural)]
pub enum LfoWaveform {
    Sine,
    Triangle,
    Square,
    Saw,
    /// Sample & hold
    Random,
}

/// Display name of an LFO waveform.
pub open spec fn lfo_waveform_name(w: LfoWaveform) -> Seq<char> {
    match w {
        LfoWaveform::Sine => "Sine"@,
        LfoWaveform::Triangle => "Triangle"@,
        LfoWaveform::Square => "Square"@,
        LfoWaveform::Saw => "Saw"@,
        LfoWaveform::Random => "Random"@,
    }
}

/// The LFO waveform at a selector position: 0 sine, 1 triangle, 2 square,
/// 3 saw, and any higher position sample & hold.
pub open spec fn lfo_waveform_at(index: u8) -> LfoWaveform {
    if index == 0 {
        LfoWaveform::Sine
    } else if index == 1 {
        LfoWaveform::Triangle
    } else if index == 2 {
        LfoWaveform::Square
    } else if index == 3 {
        LfoWaveform::Saw
    } else {
        LfoWaveform::Random
    }
}

impl LfoWaveform {
    /// The waveform at a selector position (0 = Sine, 1 = Triangle,
    /// 2 = Square, 3 = Saw, 4 and above = Random).
    pub fn from_index(index: u8) -> (r: Self)
        ensures
            r == lfo_waveform_at(index),
    {
        match index {
            0 => LfoWaveform::Sine,
            1 => LfoWaveform::Triangle,
            2 => LfoWaveform::Square,
            3 => LfoWaveform::Saw,
            _ => LfoWaveform::Random,
        }
    }

    /// Get display name
    pub fn name(&self) -> (r: &'static str)
        ensures
            r@ == lfo_waveform_name(*self),
    {
        match self {
            LfoWaveform::Sine => "Sine",
            LfoWaveform::Triangle => "Triangle",
            LfoWaveform::Square => "Square",
            LfoWaveform::Saw => "Saw",
            LfoWaveform::Random => "Random",
        }
    }
}

impl Default for LfoWaveform {
    fn default() -> (r: Self)
        ensures
            r == LfoWaveform::Sine,
    {
        LfoWaveform::Sine
    }
}

/// `LfoDestination::all` lists every destination exactly once.
pub proof fn lemma_all_lfo_destinations_complete(d: LfoDestination)
    ensures
        all_lfo_destinations().len() == 4,
        all_lfo_destinations().contains(d),
        forall|i: int, j: int|
            0 <= i < j < 4 ==> all_lfo_destinations()[i] != all_lfo_destinations()[j],
{
    let s = all_lfo_destinations();
    match d {
        LfoDestination::Off => assert(s[0] == d),
        LfoDestination::Pitch => assert(s[1] == d),
        LfoDestination::FilterCutoff => assert(s[2] == d),
        LfoDestination::Amplitude => assert(s[3] == d),
    }
}

/// Position of an LFO waveform in the selector order (its declaration order).
pub open spec fn lfo_waveform_position(w: LfoWaveform) -> u8 {
    match w {
        LfoWaveform::Sine => 0,
        LfoWaveform::Triangle => 1,
        LfoWaveform::Square => 2,
        LfoWaveform::Saw => 3,
        LfoWaveform::Random => 4,
    }
}

/// Position of an LFO destination in the selector order (its declaration
/// order).
pub open spec fn lfo_destination_position(d: LfoDestination) -> u8 {
    match d {
        LfoDestination::Off => 0,
        LfoDestination::Pitch => 1,
        LfoDestination::FilterCutoff => 2,
        LfoDestination::Amplitude => 3,
    }
}

/// Storing an LFO setting as its selector position and reading it back with
/// `from_index` gives the same setting (how presets keep the LFO settings).
pub proof fn lemma_lfo_index_round_trip(w: LfoWaveform, d: LfoDestination)
    ensures
        lfo_waveform_at(lfo_waveform_position(w)) == w,
        lfo_destination_at(lfo_destination_position(d)) == d,
{
}

/// The LFO waveform index that `cc_to_lfo_waveform` gives goes by bands of
/// 26: 0-25 sine, 26-51 triangle, 52-77 square, 78-103 saw, 104-127 sample &
/// hold.
pub proof fn lemma_cc_selects_lfo_waveform(value: u8)
    ensures
        0 <= lfo_waveform_for_cc(value) <= 4,
        lfo_waveform_at(lfo_waveform_for_cc(value) as u8) == if value < 26 {
            LfoWaveform::Sine
        } else if value < 52 {
            LfoWaveform::Triangle
        } else if value < 78 {
            LfoWaveform::Square
        } else if value < 104 {
            LfoWaveform::Saw
        } else {
            LfoWaveform::Random
        },
{
}

/// The LFO destination index that `cc_to_lfo_destination` gives goes by
/// quarters: 0-31 off, 32-63 pitch, 64-95 filter, 96-127 amplitude.
pub proof fn lemma_cc_selects_lfo_destination(value: u8)
    ensures
        0 <= lfo_destination_for_cc(value) <= 3,
        lfo_destination_at(lfo_destination_for_cc(value) as u8) == if value < 32 {
            LfoDestination::Off
        } else if value < 64 {
            LfoDestination::Pitch
        } else if value < 96 {
            LfoDestination::FilterCutoff
        } else {
            LfoDestination::Amplitude
        },
{
}

} // verus!
