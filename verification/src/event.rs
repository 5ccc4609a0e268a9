//! Oscillator waveform selection and the receivers of synth events.

use vstd::prelude::*;

use crate::midi::MidiMessage;

verus! {

/// Available waveform types
#[derive(Debug, Clone, Copy, PartialEq, Eq, Structural)]
pub enum WaveformType {
    Sine,
    Square,
    Saw,
    Triangle,
    Noise,
}

/// The waveform selected by an index; indices wrap around every five.
pub open spec fn waveform_for_index(index: u8) -> WaveformType {
    let i = index % 5;
    if i == 0 {
        WaveformType::Sine
    } else if i == 1 {
        WaveformType::Square
    } else if i == 2 {
        WaveformType::Saw
    } else if i == 3 {
        WaveformType::Triangle
    } else {
        WaveformType::Noise
    }
}

/// Position of a waveform in the selector order (0-4).
pub open spec fn waveform_position(w: WaveformType) -> u8 {
    match w {
        WaveformType::Sine => 0,
        WaveformType::Square => 1,
        WaveformType::Saw => 2,
        WaveformType::Triangle => 3,
        WaveformType::Noise => 4,
    }
}

/// Display name of a waveform.
pub open spec fn waveform_name(w: WaveformType) -> Seq<char> {
    match w {
        WaveformType::Sine => "Sine"@,
        WaveformType::Square => "Square"@,
        WaveformType::Saw => "Sawtooth"@,
        WaveformType::Triangle => "Triangle"@,
        WaveformType::Noise => "Noise"@,
    }
}

impl WaveformType {
    /// Get waveform from index (0-4)
    pub fn from_index(index: u8) -> (r: Self)
        ensures
            r == waveform_for_index(index),
    {
        match index % 5 {
            0 => WaveformType::Sine,
            1 => WaveformType::Square,
            2 => WaveformType::Saw,
            3 => WaveformType::Triangle,
            _ => WaveformType::Noise,
        }
    }

    /// Get display name
    pub fn name(&self) -> (r: &'static str)
        ensures
            r@ == waveform_name(*self),
    {
        match self {
            WaveformType::Sine => "Sine",
            WaveformType::Square => "Square",
            WaveformType::Saw => "Sawtooth",
            WaveformType::Triangle => "Triangle",
            WaveformType::Noise => "Noise",
        }
    }
}

impl Default for WaveformType {
    fn default() -> (r: Self)
        ensures
            r == WaveformType::Sine,
    {
        WaveformType::Sine
    }
}

/// `from_index` inverts the selector order, and any index selects the same
/// waveform as its remainder modulo five.
pub proof fn lemma_waveform_index_round_trip(w: WaveformType, i: u8)
    ensures
        waveform_for_index(waveform_position(w)) == w,
        waveform_for_index(i) == waveform_for_index(i % 5),
        waveform_position(waveform_for_index(i)) == i % 5,
{
}

/// Anything that can receive synth events (synth, voice manager, ...).
pub trait SynthEventReceiver: Send {
    fn receive_event(&mut self, event: MidiMessage);
}

/// Alias for backwards compatibility
pub trait NoteEventReceiver: SynthEventReceiver {}

} // verus!
