//! Synth parameters, their MIDI CC assignments and the integer CC
//! conversions.

use std::collections::HashMap;
use vstd::prelude::*;

use crate::param_spec::{index, param_index, NUM_PARAMS};

pub mod cc;

verus! {

broadcast use vstd::std_specs::hash::group_hash_axioms;

/// Synth parameters that can be controlled via MIDI CC
#[derive(Debug, Clone, Copy, PartialEq, Eq, Structural, Hash)]
pub enum SynthParam {
    // Amplitude Envelope (ADSR)
    Attack,
    Decay,
    Sustain,
    Release,
    // Filter
    FilterCutoff,
    FilterResonance,
    // Filter Envelope (ADSR)
    FilterAttack,
    FilterDecay,
    FilterSustain,
    FilterRelease,
    FilterEnvAmount,
    // LFO
    LfoRate,
    LfoDepth,
    LfoWaveform,
    LfoDestination,
    // Pitch
    PitchBendRange,
    PortamentoTime,
    // Oscillator 1 (Main)
    Osc1Waveform,
    Osc1Level,
    Osc1Phase,
    // Oscillator 2
    Osc2Waveform,
    Osc2Level,
    Osc2Semitones,
    Osc2Cents,
    Osc2Phase,
    // Oscillator 3
    Osc3Waveform,
    Osc3Level,
    Osc3Semitones,
    Osc3Cents,
    Osc3Phase,
    // Stereo
    Osc1Pan,
    Osc2Pan,
    Osc3Pan,
    StereoWidth,
    // Master
    MasterVolume,
}

/// Display name of a parameter.
pub open spec fn param_name(p: SynthParam) -> Seq<char> {
    match p {
        SynthParam::Attack => "Attack"@,
        SynthParam::Decay => "Decay"@,
        SynthParam::Sustain => "Sustain"@,
        SynthParam::Release => "Release"@,
        SynthParam::FilterCutoff => "Filter Cutoff"@,
        SynthParam::FilterResonance => "Filter Resonance"@,
        SynthParam::FilterAttack => "Filter Attack"@,
        SynthParam::FilterDecay => "Filter Decay"@,
        SynthParam::FilterSustain => "Filter Sustain"@,
        SynthParam::FilterRelease => "Filter Release"@,
        SynthParam::FilterEnvAmount => "Filter Env Amount"@,
        SynthParam::LfoRate => "LFO Rate"@,
        SynthParam::LfoDepth => "LFO Depth"@,
        SynthParam::LfoWaveform => "LFO Waveform"@,
        SynthParam::LfoDestination => "LFO Destination"@,
        SynthParam::PitchBendRange => "Pitch Bend Range"@,
        SynthParam::PortamentoTime => "Portamento Time"@,
        SynthParam::Osc1Waveform => "OSC1 Waveform"@,
        SynthParam::Osc1Level => "OSC1 Level"@,
        SynthParam::Osc1Phase => "OSC1 Phase"@,
        SynthParam::Osc2Waveform => "OSC2 Waveform"@,
        SynthParam::Osc2Level => "OSC2 Level"@,
        SynthParam::Osc2Semitones => "OSC2 Semitones"@,
        SynthParam::Osc2Cents => "OSC2 Cents"@,
        SynthParam::Osc2Phase => "OSC2 Phase"@,
        SynthParam::Osc3Waveform => "OSC3 Waveform"@,
        SynthParam::Osc3Level => "OSC3 Level"@,
        SynthParam::Osc3Semitones => "OSC3 Semitones"@,
        SynthParam::Osc3Cents => "OSC3 Cents"@,
        SynthParam::Osc3Phase => "OSC3 Phase"@,
        SynthParam::Osc1Pan => "OSC1 Pan"@,
        SynthParam::Osc2Pan => "OSC2 Pan"@,
        SynthParam::Osc3Pan => "OSC3 Pan"@,
        SynthParam::StereoWidth => "Stereo Width"@,
        SynthParam::MasterVolume => "Master Volume"@,
    }
}

/// Short name of a parameter, for compact display.
pub open spec fn param_short_name(p: SynthParam) -> Seq<char> {
    match p {
        SynthParam::Attack => "ATK"@,
        SynthParam::Decay => "DEC"@,
        SynthParam::Sustain => "SUS"@,
        SynthParam::Release => "REL"@,
        SynthParam::FilterCutoff => "CUT"@,
        SynthParam::FilterResonance => "RES"@,
        SynthParam::FilterAttack => "FATK"@,
        SynthParam::FilterDecay => "FDEC"@,
        SynthParam::FilterSustain => "FSUS"@,
        SynthParam::FilterRelease => "FREL"@,
        SynthParam::FilterEnvAmount => "FENV"@,
        SynthParam::LfoRate => "LRT"@,
        SynthParam::LfoDepth => "LDEP"@,
        SynthParam::LfoWaveform => "LWF"@,
        SynthParam::LfoDestination => "LDST"@,
        SynthParam::PitchBendRange => "PBR"@,
        SynthParam::PortamentoTime => "PRT"@,
        SynthParam::Osc1Waveform => "O1W"@,
        SynthParam::Osc1Level => "O1L"@,
        SynthParam::Osc1Phase => "O1P"@,
        SynthParam::Osc2Waveform => "O2W"@,
        SynthParam::Osc2Level => "O2L"@,
        SynthParam::Osc2Semitones => "O2S"@,
        SynthParam::Osc2Cents => "O2C"@,
        SynthParam::Osc2Phase => "O2P"@,
        SynthParam::Osc3Waveform => "O3W"@,
        SynthParam::Osc3Level => "O3L"@,
        SynthParam::Osc3Semitones => "O3S"@,
        SynthParam::Osc3Cents => "O3C"@,
        SynthParam::Osc3Phase => "O3P"@,
        SynthParam::Osc1Pan => "O1PN"@,
        SynthParam::Osc2Pan => "O2PN"@,
        SynthParam::Osc3Pan => "O3PN"@,
        SynthParam::StereoWidth => "WID"@,
        SynthParam::MasterVolume => "VOL"@,
    }
}

/// Every parameter, in display order.
pub open spec fn all_params() -> Seq<SynthParam> {
    seq![
        SynthParam::Attack,
        SynthParam::Decay,
        SynthParam::Sustain,
        SynthParam::Release,
        SynthParam::FilterCutoff,
        SynthParam::FilterResonance,
        SynthParam::FilterAttack,
        SynthParam::FilterDecay,
        SynthParam::FilterSustain,
        SynthParam::FilterRelease,
        SynthParam::FilterEnvAmount,
        SynthParam::LfoRate,
        SynthParam::LfoDepth,
        SynthParam::LfoWaveform,
        SynthParam::LfoDestination,
        SynthParam::PitchBendRange,
        SynthParam::PortamentoTime,
        SynthParam::Osc1Waveform,
        SynthParam::Osc1Level,
        SynthParam::Osc1Phase,
        SynthParam::Osc2Waveform,
        SynthParam::Osc2Level,
        SynthParam::Osc2Semitones,
        SynthParam::Osc2Cents,
        SynthParam::Osc2Phase,
        SynthParam::Osc3Waveform,
        SynthParam::Osc3Level,
        SynthParam::Osc3Semitones,
        SynthParam::Osc3Cents,
        SynthParam::Osc3Phase,
        SynthParam::Osc1Pan,
        SynthParam::Osc2Pan,
        SynthParam::Osc3Pan,
        SynthParam::StereoWidth,
        SynthParam::MasterVolume,
    ]
}

/// A number that tells parameter display names apart: their length, last
/// character and fourth character together differ between any two names.
spec fn name_key(s: Seq<char>) -> int {
    s.len() * 1000000 + (s.last() as int) * 1000 + (s[3] as int)
}

/// Which parameter a name key belongs to (see `name_key`).
spec fn param_of_name_key(k: int) -> Option<SynthParam> {
    if k == 6107097 {
        Some(SynthParam::Attack)
    } else if k == 5121097 {
        Some(SynthParam::Decay)
    } else if k == 7110116 {
        Some(SynthParam::Sustain)
    } else if k == 7101101 {
        Some(SynthParam::Release)
    } else if k == 13102116 {
        Some(SynthParam::FilterCutoff)
    } else if k == 16101116 {
        Some(SynthParam::FilterResonance)
    } else if k == 13107116 {
        Some(SynthParam::FilterAttack)
    } else if k == 12121116 {
        Some(SynthParam::FilterDecay)
    } else if k == 14110116 {
        Some(SynthParam::FilterSustain)
    } else if k == 14101116 {
        Some(SynthParam::FilterRelease)
    } else if k == 17116116 {
        Some(SynthParam::FilterEnvAmount)
    } else if k == 8101032 {
        Some(SynthParam::LfoRate)
    } else if k == 9104032 {
        Some(SynthParam::LfoDepth)
    } else if k == 12109032 {
        Some(SynthParam::LfoWaveform)
    } else if k == 15110032 {
        Some(SynthParam::LfoDestination)
    } else if k == 16101099 {
        Some(SynthParam::PitchBendRange)
    } else if k == 15101116 {
        Some(SynthParam::PortamentoTime)
    } else if k == 13109049 {
        Some(SynthParam::Osc1Waveform)
    } else if k == 10108049 {
        Some(SynthParam::Osc1Level)
    } else if k == 10101049 {
        Some(SynthParam::Osc1Phase)
    } else if k == 13109050 {
        Some(SynthParam::Osc2Waveform)
    } else if k == 10108050 {
        Some(SynthParam::Osc2Level)
    } else if k == 14115050 {
        Some(SynthParam::Osc2Semitones)
    } else if k == 10115050 {
        Some(SynthParam::Osc2Cents)
    } else if k == 10101050 {
        Some(SynthParam::Osc2Phase)
    } else if k == 13109051 {
        Some(SynthParam::Osc3Waveform)
    } else if k == 10108051 {
        Some(SynthParam::Osc3Level)
    } else if k == 14115051 {
        Some(SynthParam::Osc3Semitones)
    } else if k == 10115051 {
        Some(SynthParam::Osc3Cents)
    } else if k == 10101051 {
        Some(SynthParam::Osc3Phase)
    } else if k == 8110049 {
        Some(SynthParam::Osc1Pan)
    } else if k == 8110050 {
        Some(SynthParam::Osc2Pan)
    } else if k == 8110051 {
        Some(SynthParam::Osc3Pan)
    } else if k == 12104114 {
        Some(SynthParam::StereoWidth)
    } else if k == 13101116 {
        Some(SynthParam::MasterVolume)
    } else {
        None
    }
}

proof fn lemma_name_key_identifies(p: SynthParam)
    ensures
        param_of_name_key(name_key(param_name(p))) == Some(p),
{
    match p {
        SynthParam::Attack => reveal_strlit("Attack"),
        SynthParam::Decay => reveal_strlit("Decay"),
        SynthParam::Sustain => reveal_strlit("Sustain"),
        SynthParam::Release => reveal_strlit("Release"),
        SynthParam::FilterCutoff => reveal_strlit("Filter Cutoff"),
        SynthParam::FilterResonance => reveal_strlit("Filter Resonance"),
        SynthParam::FilterAttack => reveal_strlit("Filter Attack"),
        SynthParam::FilterDecay => reveal_strlit("Filter Decay"),
        SynthParam::FilterSustain => reveal_strlit("Filter Sustain"),
        SynthParam::FilterRelease => reveal_strlit("Filter Release"),
        SynthParam::FilterEnvAmount => reveal_strlit("Filter Env Amount"),
        SynthParam::LfoRate => reveal_strlit("LFO Rate"),
        SynthParam::LfoDepth => reveal_strlit("LFO Depth"),
        SynthParam::LfoWaveform => reveal_strlit("LFO Waveform"),
        SynthParam::LfoDestination => reveal_strlit("LFO Destination"),
        SynthParam::PitchBendRange => reveal_strlit("Pitch Bend Range"),
        SynthParam::PortamentoTime => reveal_strlit("Portamento Time"),
        SynthParam::Osc1Waveform => reveal_strlit("OSC1 Waveform"),
        SynthParam::Osc1Level => reveal_strlit("OSC1 Level"),
        SynthParam::Osc1Phase => reveal_strlit("OSC1 Phase"),
        SynthParam::Osc2Waveform => reveal_strlit("OSC2 Waveform"),
        SynthParam::Osc2Level => reveal_strlit("OSC2 Level"),
        SynthParam::Osc2Semitones => reveal_strlit("OSC2 Semitones"),
        SynthParam::Osc2Cents => reveal_strlit("OSC2 Cents"),
        SynthParam::Osc2Phase => reveal_strlit("OSC2 Phase"),
        SynthParam::Osc3Waveform => reveal_strlit("OSC3 Waveform"),
        SynthParam::Osc3Level => reveal_strlit("OSC3 Level"),
        SynthParam::Osc3Semitones => reveal_strlit("OSC3 Semitones"),
        SynthParam::Osc3Cents => reveal_strlit("OSC3 Cents"),
        SynthParam::Osc3Phase => reveal_strlit("OSC3 Phase"),
        SynthParam::Osc1Pan => reveal_strlit("OSC1 Pan"),
        SynthParam::Osc2Pan => reveal_strlit("OSC2 Pan"),
        SynthParam::Osc3Pan => reveal_strlit("OSC3 Pan"),
        SynthParam::StereoWidth => reveal_strlit("Stereo Width"),
        SynthParam::MasterVolume => reveal_strlit("Master Volume"),
    }
}

/// No two parameters share a display name, so a name saved for a parameter
/// (as the CC mapping file does) always reads back as that same parameter.
pub proof fn lemma_param_names_distinct(p: SynthParam, q: SynthParam)
    requires
        param_name(p) == param_name(q),
    ensures
        p == q,
{
    lemma_name_key_identifies(p);
    lemma_name_key_identifies(q);
}

impl SynthParam {
    /// Get display name for the parameter
    pub fn name(&self) -> (r: &'static str)
        ensures
            r@ == param_name(*self),
    {
        match self {
            SynthParam::Attack => "Attack",
            SynthParam::Decay => "Decay",
            SynthParam::Sustain => "Sustain",
            SynthParam::Release => "Release",
            SynthParam::FilterCutoff => "Filter Cutoff",
            SynthParam::FilterResonance => "Filter Resonance",
            SynthParam::FilterAttack => "Filter Attack",
            SynthParam::FilterDecay => "Filter Decay",
            SynthParam::FilterSustain => "Filter Sustain",
            SynthParam::FilterRelease => "Filter Release",
            SynthParam::FilterEnvAmount => "Filter Env Amount",
            SynthParam::LfoRate => "LFO Rate",
            SynthParam::LfoDepth => "LFO Depth",
            SynthParam::LfoWaveform => "LFO Waveform",
            SynthParam::LfoDestination => "LFO Destination",
            SynthParam::PitchBendRange => "Pitch Bend Range",
            SynthParam::PortamentoTime => "Portamento Time",
            SynthParam::Osc1Waveform => "OSC1 Waveform",
            SynthParam::Osc1Level => "OSC1 Level",
            SynthParam::Osc1Phase => "OSC1 Phase",
            SynthParam::Osc2Waveform => "OSC2 Waveform",
            SynthParam::Osc2Level => "OSC2 Level",
            SynthParam::Osc2Semitones => "OSC2 Semitones",
            SynthParam::Osc2Cents => "OSC2 Cents",
            SynthParam::Osc2Phase => "OSC2 Phase",
            SynthParam::Osc3Waveform => "OSC3 Waveform",
            SynthParam::Osc3Level => "OSC3 Level",
            SynthParam::Osc3Semitones => "OSC3 Semitones",
            SynthParam::Osc3Cents => "OSC3 Cents",
            SynthParam::Osc3Phase => "OSC3 Phase",
            SynthParam::Osc1Pan => "OSC1 Pan",
            SynthParam::Osc2Pan => "OSC2 Pan",
            SynthParam::Osc3Pan => "OSC3 Pan",
            SynthParam::StereoWidth => "Stereo Width",
            SynthParam::MasterVolume => "Master Volume",
        }
    }

    /// Get short name for compact display
    pub fn short_name(&self) -> (r: &'static str)
        ensures
            r@ == param_short_name(*self),
    {
        match self {
            SynthParam::Attack => "ATK",
            SynthParam::Decay => "DEC",
            SynthParam::Sustain => "SUS",
            SynthParam::Release => "REL",
            SynthParam::FilterCutoff => "CUT",
            SynthParam::FilterResonance => "RES",
            SynthParam::FilterAttack => "FATK",
            SynthParam::FilterDecay => "FDEC",
            SynthParam::FilterSustain => "FSUS",
            SynthParam::FilterRelease => "FREL",
            SynthParam::FilterEnvAmount => "FENV",
            SynthParam::LfoRate => "LRT",
            SynthParam::LfoDepth => "LDEP",
            SynthParam::LfoWaveform => "LWF",
            SynthParam::LfoDestination => "LDST",
            SynthParam::PitchBendRange => "PBR",
            SynthParam::PortamentoTime => "PRT",
            SynthParam::Osc1Waveform => "O1W",
            SynthParam::Osc1Level => "O1L",
            SynthParam::Osc1Phase => "O1P",
            SynthParam::Osc2Waveform => "O2W",
            SynthParam::Osc2Level => "O2L",
            SynthParam::Osc2Semitones => "O2S",
            SynthParam::Osc2Cents => "O2C",
            SynthParam::Osc2Phase => "O2P",
            SynthParam::Osc3Waveform => "O3W",
            SynthParam::Osc3Level => "O3L",
            SynthParam::Osc3Semitones => "O3S",
            SynthParam::Osc3Cents => "O3C",
            SynthParam::Osc3Phase => "O3P",
            SynthParam::Osc1Pan => "O1PN",
            SynthParam::Osc2Pan => "O2PN",
            SynthParam::Osc3Pan => "O3PN",
            SynthParam::StereoWidth => "WID",
            SynthParam::MasterVolume => "VOL",
        }
    }

    /// The parameter whose display name is `name`, if any.
    pub fn from_name(name: &str) -> (r: Option<SynthParam>)
        ensures
            match r {
                Some(p) => param_name(p) == name@,
                None => forall|p: SynthParam| param_name(p) != name@,
            },
            forall|p: SynthParam| param_name(p) == name@ ==> r == Some(p),
    {
        let target = String::from_str(name);
        let all = SynthParam::all();
        let mut i: usize = 0;
        while i < all.len()
            invariant
                all@ == all_params(),
                i <= all@.len(),
                target@ == name@,
                forall|j: int| 0 <= j < i ==> param_name(#[trigger] all_params()[j]) != name@,
            decreases all@.len() - i,
        {
            let p = all[i];
            let candidate = String::from_str(p.name());
            if candidate == target {
                proof {
                    assert forall|q: SynthParam| param_name(q) == name@ implies p == q by {
                        lemma_param_names_distinct(p, q);
                    }
                }
                return Some(p);
            }
            i = i + 1;
        }
        proof {
            assert forall|p: SynthParam| param_name(p) != name@ by {
                crate::param_spec::lemma_all_params_complete(p);
                let k = choose|k: int| 0 <= k < all_params().len() && all_params()[k] == p;
                assert(param_name(all_params()[k]) != name@);
            }
        }
        None
    }

    /// Get all available parameters
    pub fn all() -> (r: &'static [SynthParam])
        ensures
            r@ == all_params(),
    {
        &[
            SynthParam::Attack,
            SynthParam::Decay,
            SynthParam::Sustain,
            SynthParam::Release,
            SynthParam::FilterCutoff,
            SynthParam::FilterResonance,
            SynthParam::FilterAttack,
            SynthParam::FilterDecay,
            SynthParam::FilterSustain,
            SynthParam::FilterRelease,
            SynthParam::FilterEnvAmount,
            SynthParam::LfoRate,
            SynthParam::LfoDepth,
            SynthParam::LfoWaveform,
            SynthParam::LfoDestination,
            SynthParam::PitchBendRange,
            SynthParam::PortamentoTime,
            SynthParam::Osc1Waveform,
            SynthParam::Osc1Level,
            SynthParam::Osc1Phase,
            SynthParam::Osc2Waveform,
            SynthParam::Osc2Level,
            SynthParam::Osc2Semitones,
            SynthParam::Osc2Cents,
            SynthParam::Osc2Phase,
            SynthParam::Osc3Waveform,
            SynthParam::Osc3Level,
            SynthParam::Osc3Semitones,
            SynthParam::Osc3Cents,
            SynthParam::Osc3Phase,
            SynthParam::Osc1Pan,
            SynthParam::Osc2Pan,
            SynthParam::Osc3Pan,
            SynthParam::StereoWidth,
            SynthParam::MasterVolume,
        ]
    }
}

// ============================================================================
// CC Value Conversion Functions (integer-valued)
// ============================================================================

/// Rust's integer division, which rounds toward zero.
pub open spec fn trunc_div(a: int, b: int) -> int {
    if a >= 0 { a / b } else { -((-a) / b) }
}

/// `x` clamped into `[lo, hi]`.
pub open spec fn clamp_int(x: int, lo: int, hi: int) -> int {
    if x < lo { lo } else if x > hi { hi } else { x }
}

/// LFO waveform index (0-4) selected by a CC value.
pub open spec fn lfo_waveform_for_cc(value: u8) -> int {
    if value / 26 < 4 { (value / 26) as int } else { 4 }
}

/// LFO destination index (0-3) selected by a CC value.
pub open spec fn lfo_destination_for_cc(value: u8) -> int {
    if value / 32 < 3 { (value / 32) as int } else { 3 }
}

/// Semitone offset (-24..=24) selected by a CC value; CC 64 is centre.
pub open spec fn semitones_for_cc(value: u8) -> int {
    clamp_int(trunc_div((value - 64) * 24, 63), -24, 24)
}

/// Cent offset (-100..=100) selected by a CC value; CC 64 is centre.
pub open spec fn cents_for_cc(value: u8) -> int {
    clamp_int(trunc_div((value - 64) * 100, 63), -100, 100)
}

/// Oscillator waveform index (0-3) selected by a CC value.
pub open spec fn waveform_for_cc(value: u8) -> int {
    if value / 32 < 3 { (value / 32) as int } else { 3 }
}

/// Pitch bend range in semitones (1-24) selected by a CC value.
pub open spec fn pitch_bend_range_for_cc(value: u8) -> int {
    if value * 24 / 127 + 1 < 24 { value * 24 / 127 + 1 } else { 24 }
}

/// Converts CC (0-127) to LFO waveform index (0-4)
/// 0=Sine, 1=Triangle, 2=Square, 3=Saw, 4=Random
pub fn cc_to_lfo_waveform(value: u8) -> (r: u8)
    ensures
        r == lfo_waveform_for_cc(value),
        r <= 4,
{
    let q = value / 26;  // 0-25=0, 26-51=1, 52-77=2, 78-103=3, 104-127=4
    if q < 4 { q } else { 4 }
}

/// Converts CC (0-127) to LFO destination index (0-3)
/// 0=Off, 1=Pitch, 2=Filter, 3=Amplitude
pub fn cc_to_lfo_destination(value: u8) -> (r: u8)
    ensures
        r == lfo_destination_for_cc(value),
        r <= 3,
{
    let q = value / 32;  // 0-31=0, 32-63=1, 64-95=2, 96-127=3
    if q < 3 { q } else { 3 }
}

/// Converts CC (0-127) to semitones (-24 to +24)
/// CC 0 = -24, CC 64 = 0, CC 127 = +24
pub fn cc_to_semitones(value: u8) -> (r: i8)
    ensures
        r == semitones_for_cc(value),
        -24 <= r <= 24,
{
    let v = value as i16;
    let scaled: i16 = if v >= 64 { (v - 64) * 24 / 63 } else { -((64 - v) * 24 / 63) };
    let clamped: i16 = if scaled < -24 { -24 } else if scaled > 24 { 24 } else { scaled };
    clamped as i8
}

/// Converts CC (0-127) to cents (-100 to +100)
/// CC 0 = -100, CC 64 = 0, CC 127 = +100
pub fn cc_to_cents(value: u8) -> (r: i8)
    ensures
        r == cents_for_cc(value),
        -100 <= r <= 100,
{
    let v = value as i16;
    let scaled: i16 = if v >= 64 { (v - 64) * 100 / 63 } else { -((64 - v) * 100 / 63) };
    let clamped: i16 = if scaled < -100 { -100 } else if scaled > 100 { 100 } else { scaled };
    clamped as i8
}

/// Converts CC (0-127) to waveform index (0-3)
/// Divides the range into 4 equal parts
pub fn cc_to_waveform(value: u8) -> (r: u8)
    ensures
        r == waveform_for_cc(value),
        r <= 3,
{
    let q = value / 32;
    if q < 3 { q } else { 3 }
}

/// Converts CC (0-127) to pitch bend range in semitones (1-24)
/// CC 0-5 = 1, CC 6-10 = 2, ..., CC 122-127 = 24
pub fn cc_to_pitch_bend_range(value: u8) -> (r: u8)
    ensures
        r == pitch_bend_range_for_cc(value),
        1 <= r <= 24,
{
    let q: u16 = value as u16 * 24 / 127 + 1;
    if q < 24 { q as u8 } else { 24 }
}

/// Every integer CC conversion is monotone: a larger CC value never selects a
/// smaller waveform, destination, semitone or cent offset, or bend range.
pub proof fn lemma_cc_conversions_monotone(a: u8, b: u8)
    requires
        a <= b,
    ensures
        lfo_waveform_for_cc(a) <= lfo_waveform_for_cc(b),
        lfo_destination_for_cc(a) <= lfo_destination_for_cc(b),
        semitones_for_cc(a) <= semitones_for_cc(b),
        cents_for_cc(a) <= cents_for_cc(b),
        waveform_for_cc(a) <= waveform_for_cc(b),
        pitch_bend_range_for_cc(a) <= pitch_bend_range_for_cc(b),
{
    assert((a as int) * 24 <= (b as int) * 24);
    assert((a as int) * 24 / 127 <= (b as int) * 24 / 127) by (nonlinear_arith)
        requires (a as int) * 24 <= (b as int) * 24;
    if a >= 64 {
        assert(((a - 64) * 24) / 63 <= ((b - 64) * 24) / 63) by (nonlinear_arith)
            requires 0 <= a - 64 <= b - 64;
        assert(((a - 64) * 100) / 63 <= ((b - 64) * 100) / 63) by (nonlinear_arith)
            requires 0 <= a - 64 <= b - 64;
    } else if b >= 64 {
    } else {
        assert(((64 - b) * 24) / 63 <= ((64 - a) * 24) / 63) by (nonlinear_arith)
            requires 0 <= 64 - b <= 64 - a;
        assert(((64 - b) * 100) / 63 <= ((64 - a) * 100) / 63) by (nonlinear_arith)
            requires 0 <= 64 - b <= 64 - a;
    }
}

/// The CC conversions hit their documented end points and centre:
/// CC 0 gives the lowest value, CC 127 the highest, and CC 64 the centre
/// of the bipolar (semitone and cent) ranges.
pub proof fn lemma_cc_conversion_endpoints()
    ensures
        semitones_for_cc(0) == -24,
        semitones_for_cc(64) == 0,
        semitones_for_cc(127) == 24,
        cents_for_cc(0) == -100,
        cents_for_cc(64) == 0,
        cents_for_cc(127) == 100,
        waveform_for_cc(0) == 0,
        waveform_for_cc(127) == 3,
        lfo_waveform_for_cc(0) == 0,
        lfo_waveform_for_cc(127) == 4,
        lfo_destination_for_cc(0) == 0,
        lfo_destination_for_cc(127) == 3,
        pitch_bend_range_for_cc(0) == 1,
        pitch_bend_range_for_cc(127) == 24,
{
}

/// Key under which a parameter's CC is stored: its stable index.
pub open spec fn param_key(p: SynthParam) -> u8 {
    param_index(p) as u8
}

/// The CC → parameter map after mapping `cc` to `param`: any previous
/// assignment of `cc` and any previous CC of `param` are dropped, then
/// `cc` is bound to `param`.
pub open spec fn mapped(m: Map<u8, SynthParam>, cc: u8, param: SynthParam) -> Map<u8, SynthParam> {
    Map::new(
        |c: u8| c == cc || (m.contains_key(c) && m[c] != param),
        |c: u8| if c == cc { param } else { m[c] },
    )
}

/// The parameter a CC is bound to, if any.
pub open spec fn lookup_param(m: Map<u8, SynthParam>, cc: u8) -> Option<SynthParam> {
    if m.contains_key(cc) { Some(m[cc]) } else { None }
}

/// `r` is the CC bound to `param` in `m`, or `None` when no CC is.
pub open spec fn is_cc_of(m: Map<u8, SynthParam>, param: SynthParam, r: Option<u8>) -> bool {
    match r {
        Some(c) => m.contains_key(c) && m[c] == param,
        None => forall|c: u8| m.contains_key(c) ==> m[c] != param,
    }
}

/// No two CCs are bound to the same parameter.
pub open spec fn injective(m: Map<u8, SynthParam>) -> bool {
    forall|a: u8, b: u8|
        m.contains_key(a) && m.contains_key(b) && #[trigger] m[a] == #[trigger] m[b] ==> a == b
}

/// `r` lists exactly the entries of `m`, in strictly increasing CC order.
pub open spec fn sorted_listing(m: Map<u8, SynthParam>, r: Seq<(u8, SynthParam)>) -> bool {
    &&& forall|i: int| 0 <= i < r.len() ==> m.contains_key(#[trigger] r[i].0) && m[r[i].0] == r[i].1
    &&& forall|i: int, j: int| 0 <= i < j < r.len() ==> #[trigger] r[i].0 < #[trigger] r[j].0
    &&& forall|c: u8| m.contains_key(c) ==> exists|i: int| 0 <= i < r.len() && #[trigger] r[i].0 == c
}

/// The documented default CC layout (MIDI Sound Controller conventions).
pub open spec fn default_cc_map() -> Map<u8, SynthParam> {
    map![
        73u8 => SynthParam::Attack,
        83u8 => SynthParam::Decay,
        84u8 => SynthParam::Sustain,
        72u8 => SynthParam::Release,
        74u8 => SynthParam::FilterCutoff,
        71u8 => SynthParam::FilterResonance,
        75u8 => SynthParam::Osc1Waveform,
        76u8 => SynthParam::Osc2Waveform,
        77u8 => SynthParam::Osc3Waveform,
        78u8 => SynthParam::Osc2Semitones,
        79u8 => SynthParam::Osc3Semitones,
        80u8 => SynthParam::Osc1Level,
        81u8 => SynthParam::Osc2Level,
        82u8 => SynthParam::Osc3Level,
        85u8 => SynthParam::Osc2Cents,
        86u8 => SynthParam::Osc3Cents,
        87u8 => SynthParam::Osc1Phase,
        89u8 => SynthParam::Osc2Phase,
        90u8 => SynthParam::Osc3Phase,
        103u8 => SynthParam::FilterAttack,
        104u8 => SynthParam::FilterDecay,
        105u8 => SynthParam::FilterSustain,
        106u8 => SynthParam::FilterRelease,
        107u8 => SynthParam::FilterEnvAmount,
        108u8 => SynthParam::LfoRate,
        109u8 => SynthParam::LfoDepth,
        110u8 => SynthParam::LfoWaveform,
        111u8 => SynthParam::LfoDestination,
        102u8 => SynthParam::PitchBendRange,
        5u8 => SynthParam::PortamentoTime
    ]
}

/// Maps MIDI CC numbers to synth parameters, in both directions.
#[derive(Debug)]
pub struct CCMapping {
    cc_to_param: HashMap<u8, SynthParam>,
    /// CC of each mapped parameter, keyed by the parameter's stable index.
    param_to_cc: HashMap<u8, u8>,
}

impl View for CCMapping {
    type V = Map<u8, SynthParam>;

    /// The CC → parameter map.
    closed spec fn view(&self) -> Map<u8, SynthParam> {
        self.cc_to_param@
    }
}

fn param_key_of(param: SynthParam) -> (r: u8)
    ensures
        r == param_key(param),
        r < NUM_PARAMS,
{
    index(param) as u8
}

impl CCMapping {
    /// The two directions agree: each CC's parameter maps back to that CC,
    /// and each stored parameter CC maps forward to that parameter.
    pub closed spec fn wf(&self) -> bool {
        let f = self.cc_to_param@;
        let g = self.param_to_cc@;
        &&& forall|c: u8| #[trigger] f.contains_key(c) ==> g.contains_key(param_key(f[c])) && g[param_key(f[c])] == c
        &&& forall|k: u8| #[trigger] g.contains_key(k) ==> f.contains_key(g[k]) && param_key(f[g[k]]) == k
    }

    /// A well-formed mapping binds each parameter to at most one CC.
    pub proof fn lemma_wf_injective(&self)
        requires
            self.wf(),
        ensures
            injective(self@),
    {
        assert forall|a: u8, b: u8|
            self@.contains_key(a) && self@.contains_key(b) && #[trigger] self@[a] == #[trigger] self@[b]
            implies a == b by {
            assert(self.cc_to_param@.contains_key(a));
            assert(self.cc_to_param@.contains_key(b));
        }
    }

    /// Create a new empty CC mapping
    pub fn new() -> (r: Self)
        ensures
            r.wf(),
            r@ == Map::<u8, SynthParam>::empty(),
    {
        Self { cc_to_param: HashMap::new(), param_to_cc: HashMap::new() }
    }

    /// Bind `cc` to `param`, both currently unbound.
    fn map_fresh(&mut self, cc: u8, param: SynthParam)
        requires
            old(self).wf(),
            !old(self)@.contains_key(cc),
            forall|c: u8| old(self)@.contains_key(c) ==> old(self)@[c] != param,
        ensures
            final(self).wf(),
            final(self)@ == old(self)@.insert(cc, param),
    {
        let k = param_key_of(param);
        proof {
            if self.param_to_cc@.contains_key(k) {
                let c0 = self.param_to_cc@[k];
                assert(self.cc_to_param@.contains_key(c0));
                crate::param_spec::lemma_index_injective(self.cc_to_param@[c0], param);
            }
        }
        self.cc_to_param.insert(cc, param);
        self.param_to_cc.insert(k, cc);
        proof {
            let f = self.cc_to_param@;
            let g = self.param_to_cc@;
            assert forall|c: u8| #[trigger] f.contains_key(c) implies g.contains_key(param_key(f[c])) && g[param_key(f[c])] == c by {
                if c != cc {
                    assert(old(self).cc_to_param@.contains_key(c));
                    crate::param_spec::lemma_index_injective(f[c], param);
                }
            }
            assert forall|kk: u8| #[trigger] g.contains_key(kk) implies f.contains_key(g[kk]) && param_key(f[g[kk]]) == kk by {
                if kk != k {
                    assert(old(self).param_to_cc@.contains_key(kk));
                }
            }
        }
    }

    /// Create default CC mappings based on MIDI standard Sound Controllers
    ///
    /// Default layout:
    /// - CC 71: Filter Resonance (standard)
    /// - CC 72: Release Time (standard)
    /// - CC 73: Attack Time (standard)
    /// - CC 74: Filter Cutoff (standard)
    /// - CC 75-77: OSC1/2/3 Waveform
    /// - CC 78-79: OSC2/3 Semitones
    /// - CC 80-82: OSC1/2/3 Level
    /// - CC 83: Decay Time
    /// - CC 84: Sustain Level
    /// - CC 85-86: OSC2/3 Cents (fine detune)
    /// - CC 87,89,90: OSC1/2/3 Phase
    /// - CC 102: Pitch Bend Range, CC 103-107: filter envelope,
    ///   CC 108-111: LFO, CC 5: Portamento Time
    #[verifier::rlimit(60)]
    pub fn default_mappings() -> (r: Self)
        ensures
            r.wf(),
            r@ == default_cc_map(),
    {
        let mut mapping = Self::new();
        // ADSR Envelope - using standard Sound Controllers
        mapping.map_fresh(cc::SOUND_CTRL_4, SynthParam::Attack);
        mapping.map_fresh(cc::GP_CTRL_8, SynthParam::Decay);
        mapping.map_fresh(cc::PORTAMENTO_CTRL, SynthParam::Sustain);
        mapping.map_fresh(cc::SOUND_CTRL_3, SynthParam::Release);
        // Filter - using standard Sound Controllers
        mapping.map_fresh(cc::SOUND_CTRL_5, SynthParam::FilterCutoff);
        mapping.map_fresh(cc::SOUND_CTRL_2, SynthParam::FilterResonance);
        // Oscillator Waveforms - Sound Controllers 6-8
        mapping.map_fresh(cc::SOUND_CTRL_6, SynthParam::Osc1Waveform);
        mapping.map_fresh(cc::SOUND_CTRL_7, SynthParam::Osc2Waveform);
        mapping.map_fresh(cc::SOUND_CTRL_8, SynthParam::Osc3Waveform);
        // Oscillator Semitones - Sound Controllers 9-10
        mapping.map_fresh(cc::SOUND_CTRL_9, SynthParam::Osc2Semitones);
        mapping.map_fresh(cc::SOUND_CTRL_10, SynthParam::Osc3Semitones);
        // Oscillator Levels - General Purpose Controllers
        mapping.map_fresh(cc::GP_CTRL_5, SynthParam::Osc1Level);
        mapping.map_fresh(cc::GP_CTRL_6, SynthParam::Osc2Level);
        mapping.map_fresh(cc::GP_CTRL_7, SynthParam::Osc3Level);
        // Oscillator Fine Detune (Cents) - Undefined CCs
        mapping.map_fresh(cc::UNDEFINED_85, SynthParam::Osc2Cents);
        mapping.map_fresh(cc::UNDEFINED_86, SynthParam::Osc3Cents);
        // Oscillator Phase - Undefined CCs
        mapping.map_fresh(cc::UNDEFINED_87, SynthParam::Osc1Phase);
        mapping.map_fresh(cc::UNDEFINED_89, SynthParam::Osc2Phase);
        mapping.map_fresh(cc::UNDEFINED_90, SynthParam::Osc3Phase);
        // Filter Envelope - Undefined CCs
        mapping.map_fresh(cc::UNDEFINED_103, SynthParam::FilterAttack);
        mapping.map_fresh(cc::UNDEFINED_104, SynthParam::FilterDecay);
        mapping.map_fresh(cc::UNDEFINED_105, SynthParam::FilterSustain);
        mapping.map_fresh(cc::UNDEFINED_106, SynthParam::FilterRelease);
        mapping.map_fresh(cc::UNDEFINED_107, SynthParam::FilterEnvAmount);
        // LFO - Undefined CCs (108-119 available)
        mapping.map_fresh(cc::UNDEFINED_108, SynthParam::LfoRate);
        mapping.map_fresh(cc::UNDEFINED_109, SynthParam::LfoDepth);
        mapping.map_fresh(cc::UNDEFINED_110, SynthParam::LfoWaveform);
        mapping.map_fresh(cc::UNDEFINED_111, SynthParam::LfoDestination);
        // Pitch Bend Range
        mapping.map_fresh(cc::UNDEFINED_102, SynthParam::PitchBendRange);
        // Portamento Time (standard MIDI CC 5)
        mapping.map_fresh(cc::PORTAMENTO_TIME, SynthParam::PortamentoTime);
        assert(mapping@ =~= default_cc_map());
        mapping
    }

    /// Remove the binding of `cc`, returning the parameter it was bound to.
    fn take_cc(&mut self, cc: u8) -> (r: Option<SynthParam>)
        requires
            old(self).wf(),
        ensures
            final(self).wf(),
            final(self)@ == old(self)@.remove(cc),
            r == lookup_param(old(self)@, cc),
    {
        let ghost f0 = self.cc_to_param@;
        let ghost g0 = self.param_to_cc@;
        match self.cc_to_param.remove(&cc) {
            Some(param) => {
                let k = param_key_of(param);
                self.param_to_cc.remove(&k);
                proof {
                    let f = self.cc_to_param@;
                    let g = self.param_to_cc@;
                    assert(g0.contains_key(k) && g0[k] == cc);
                    assert forall|c: u8| #[trigger] f.contains_key(c) implies g.contains_key(param_key(f[c])) && g[param_key(f[c])] == c by {
                        assert(f0.contains_key(c));
                    }
                    assert forall|kk: u8| #[trigger] g.contains_key(kk) implies f.contains_key(g[kk]) && param_key(f[g[kk]]) == kk by {
                        assert(g0.contains_key(kk));
                    }
                    assert(self@ =~= f0.remove(cc));
                }
                Some(param)
            },
            None => {
                proof {
                    assert(self@ =~= f0.remove(cc));
                }
                None
            },
        }
    }

    /// Map a CC number to a parameter
    pub fn map(&mut self, cc: u8, param: SynthParam)
        requires
            old(self).wf(),
        ensures
            final(self).wf(),
            final(self)@ == mapped(old(self)@, cc, param),
    {
        let ghost m0 = self@;
        // Remove old mapping for this CC if exists
        self.take_cc(cc);
        let ghost m1 = self@;
        proof { self.lemma_wf_injective(); }
        // Remove old CC for this param if exists
        let kp = param_key_of(param);
        match self.param_to_cc.get(&kp) {
            Some(old_cc) => {
                let old_cc = *old_cc;
                proof {
                    assert(self.cc_to_param@.contains_key(old_cc));
                    crate::param_spec::lemma_index_injective(m1[old_cc], param);
                    assert(m1[old_cc] == param);
                }
                self.take_cc(old_cc);
                proof {
                    assert forall|c: u8| self@.contains_key(c) implies self@[c] != param by {
                        assert(m1.contains_key(c) && m1.contains_key(old_cc));
                    }
                }
            },
            None => {
                proof {
                    assert forall|c: u8| self@.contains_key(c) implies self@[c] != param by {
                        assert(self.cc_to_param@.contains_key(c));
                        if self@[c] == param {
                            assert(self.param_to_cc@.contains_key(param_key(param)));
                        }
                    }
                }
            },
        }
        let ghost m2 = self@;
        // Add new mapping
        self.map_fresh(cc, param);
        proof {
            assert forall|c: u8| m2.contains_key(c) <==> (c != cc && m0.contains_key(c) && m0[c] != param) by {
                if m2.contains_key(c) {
                    assert(m1.contains_key(c));
                }
            }
            assert(self@ =~= mapped(m0, cc, param));
        }
    }

    /// Unmap a CC number
    pub fn unmap_cc(&mut self, cc: u8)
        requires
            old(self).wf(),
        ensures
            final(self).wf(),
            final(self)@ == old(self)@.remove(cc),
    {
        self.take_cc(cc);
    }

    /// Get the parameter mapped to a CC number
    pub fn get_param(&self, cc: u8) -> (r: Option<SynthParam>)
        ensures
            r == lookup_param(self@, cc),
    {
        match self.cc_to_param.get(&cc) {
            Some(p) => Some(*p),
            None => None,
        }
    }

    /// Get the CC number mapped to a parameter
    pub fn get_cc(&self, param: SynthParam) -> (r: Option<u8>)
        requires
            self.wf(),
        ensures
            is_cc_of(self@, param, r),
    {
        let k = param_key_of(param);
        match self.param_to_cc.get(&k) {
            Some(c) => {
                let c = *c;
                proof {
                    assert(self.cc_to_param@.contains_key(c));
                    crate::param_spec::lemma_index_injective(self@[c], param);
                }
                Some(c)
            },
            None => {
                proof {
                    assert forall|c: u8| self@.contains_key(c) implies self@[c] != param by {
                        assert(self.cc_to_param@.contains_key(c));
                    }
                }
                None
            },
        }
    }

    /// List all current mappings, sorted by CC number
    pub fn list_mappings(&self) -> (r: Vec<(u8, SynthParam)>)
        ensures
            sorted_listing(self@, r@),
    {
        let mut mappings: Vec<(u8, SynthParam)> = Vec::new();
        let mut c: u16 = 0;
        while c < 256
            invariant
                c <= 256,
                forall|i: int| 0 <= i < mappings@.len() ==> self@.contains_key(#[trigger] mappings@[i].0) && self@[mappings@[i].0] == mappings@[i].1,
                forall|i: int| 0 <= i < mappings@.len() ==> #[trigger] mappings@[i].0 < c,
                forall|i: int, j: int| 0 <= i < j < mappings@.len() ==> #[trigger] mappings@[i].0 < #[trigger] mappings@[j].0,
                forall|x: u8| x < c && self@.contains_key(x) ==> exists|i: int| 0 <= i < mappings@.len() && #[trigger] mappings@[i].0 == x,
            decreases 256 - c,
        {
            let cc = c as u8;
            let ghost before = mappings@;
            match self.cc_to_param.get(&cc) {
                Some(p) => {
                    mappings.push((cc, *p));
                },
                None => {},
            }
            proof {
                assert forall|x: u8| x < c + 1 && self@.contains_key(x) implies exists|i: int|
                    0 <= i < mappings@.len() && #[trigger] mappings@[i].0 == x by {
                    if x == cc {
                        let n = mappings@.len() - 1;
                        assert(mappings@[n].0 == cc);
                    } else {
                        let i = choose|i: int| 0 <= i < before.len() && #[trigger] before[i].0 == x;
                        assert(mappings@[i] == before[i]);
                    }
                }
            }
            c = c + 1;
        }
        mappings
    }
}

impl Clone for CCMapping {
    fn clone(&self) -> (r: Self)
        ensures
            r@ == self@,
            self.wf() ==> r.wf(),
    {
        CCMapping { cc_to_param: self.cc_to_param.clone(), param_to_cc: self.param_to_cc.clone() }
    }
}

impl Default for CCMapping {
    fn default() -> (r: Self)
        ensures
            r.wf(),
            r@ == default_cc_map(),
    {
        Self::default_mappings()
    }
}

/// Mapping a CC is read back by both lookups: afterwards the CC gives the
/// parameter and the parameter gives the CC; the mapping stays one-to-one,
/// the parameter's previous CC (if another) is freed, and every other
/// binding is untouched.
pub proof fn lemma_map_then_lookup(m: Map<u8, SynthParam>, cc: u8, p: SynthParam)
    requires
        injective(m),
    ensures
        lookup_param(mapped(m, cc, p), cc) == Some(p),
        is_cc_of(mapped(m, cc, p), p, Some(cc)),
        injective(mapped(m, cc, p)),
        forall|c: u8| c != cc && m.contains_key(c) && m[c] == p ==> !mapped(m, cc, p).contains_key(c),
        forall|c: u8| c != cc && m.contains_key(c) && m[c] != p ==> lookup_param(mapped(m, cc, p), c) == lookup_param(m, c),
        forall|c: u8| c != cc && !m.contains_key(c) ==> !mapped(m, cc, p).contains_key(c),
{
}

/// Unmapping a CC leaves it unbound and every other binding untouched.
pub proof fn lemma_unmap_then_lookup(m: Map<u8, SynthParam>, cc: u8)
    ensures
        lookup_param(m.remove(cc), cc) is None,
        forall|c: u8| c != cc ==> lookup_param(m.remove(cc), c) == lookup_param(m, c),
        injective(m) ==> injective(m.remove(cc)),
{
}

/// Mapping the same CC to the same parameter twice is the same as once.
pub proof fn lemma_map_idempotent(m: Map<u8, SynthParam>, cc: u8, p: SynthParam)
    ensures
        mapped(mapped(m, cc, p), cc, p) == mapped(m, cc, p),
{
    assert(mapped(mapped(m, cc, p), cc, p) =~= mapped(m, cc, p));
}

/// CC of a parameter in the default layout.
spec fn default_cc_of(p: SynthParam) -> Option<u8> {
    match p {
        SynthParam::Attack => Some(73u8),
        SynthParam::Decay => Some(83u8),
        SynthParam::Sustain => Some(84u8),
        SynthParam::Release => Some(72u8),
        SynthParam::FilterCutoff => Some(74u8),
        SynthParam::FilterResonance => Some(71u8),
        SynthParam::Osc1Waveform => Some(75u8),
        SynthParam::Osc2Waveform => Some(76u8),
        SynthParam::Osc3Waveform => Some(77u8),
        SynthParam::Osc2Semitones => Some(78u8),
        SynthParam::Osc3Semitones => Some(79u8),
        SynthParam::Osc1Level => Some(80u8),
        SynthParam::Osc2Level => Some(81u8),
        SynthParam::Osc3Level => Some(82u8),
        SynthParam::Osc2Cents => Some(85u8),
        SynthParam::Osc3Cents => Some(86u8),
        SynthParam::Osc1Phase => Some(87u8),
        SynthParam::Osc2Phase => Some(89u8),
        SynthParam::Osc3Phase => Some(90u8),
        SynthParam::FilterAttack => Some(103u8),
        SynthParam::FilterDecay => Some(104u8),
        SynthParam::FilterSustain => Some(105u8),
        SynthParam::FilterRelease => Some(106u8),
        SynthParam::FilterEnvAmount => Some(107u8),
        SynthParam::LfoRate => Some(108u8),
        SynthParam::LfoDepth => Some(109u8),
        SynthParam::LfoWaveform => Some(110u8),
        SynthParam::LfoDestination => Some(111u8),
        SynthParam::PitchBendRange => Some(102u8),
        SynthParam::PortamentoTime => Some(5u8),
        _ => None,
    }
}

/// The default layout is one-to-one: no parameter has two default CCs.
pub proof fn lemma_default_map_one_to_one()
    ensures
        injective(default_cc_map()),
{
    let m = default_cc_map();
    assert forall|c: u8| m.contains_key(c) implies default_cc_of(#[trigger] m[c]) == Some(c) by {
    }
    assert forall|a: u8, b: u8| m.contains_key(a) && m.contains_key(b) && #[trigger] m[a] == #[trigger] m[b] implies a == b by {
        assert(default_cc_of(m[a]) == Some(a));
        assert(default_cc_of(m[b]) == Some(b));
    }
}

/// The default CC layout is the documented MIDI CC table: the amplitude
/// envelope on 73 (attack), 83 (decay), 84 (sustain) and 72 (release); the
/// filter on 74 (cutoff) and 71 (resonance); the oscillator waveforms on
/// 75-77, semitones on 78-79, levels on 80-82, cents on 85-86 and phases on
/// 87, 89 and 90; the filter envelope on 103-107; the LFO on 108-111; the
/// pitch bend range on 102 and the portamento time on 5. No other CC is
/// mapped.
pub proof fn lemma_default_layout_is_documented(cc: u8)
    ensures
        lookup_param(default_cc_map(), 73) == Some(SynthParam::Attack),
        lookup_param(default_cc_map(), 83) == Some(SynthParam::Decay),
        lookup_param(default_cc_map(), 84) == Some(SynthParam::Sustain),
        lookup_param(default_cc_map(), 72) == Some(SynthParam::Release),
        lookup_param(default_cc_map(), 74) == Some(SynthParam::FilterCutoff),
        lookup_param(default_cc_map(), 71) == Some(SynthParam::FilterResonance),
        lookup_param(default_cc_map(), 75) == Some(SynthParam::Osc1Waveform),
        lookup_param(default_cc_map(), 76) == Some(SynthParam::Osc2Waveform),
        lookup_param(default_cc_map(), 77) == Some(SynthParam::Osc3Waveform),
        lookup_param(default_cc_map(), 78) == Some(SynthParam::Osc2Semitones),
        lookup_param(default_cc_map(), 79) == Some(SynthParam::Osc3Semitones),
        lookup_param(default_cc_map(), 80) == Some(SynthParam::Osc1Level),
        lookup_param(default_cc_map(), 81) == Some(SynthParam::Osc2Level),
        lookup_param(default_cc_map(), 82) == Some(SynthParam::Osc3Level),
        lookup_param(default_cc_map(), 85) == Some(SynthParam::Osc2Cents),
        lookup_param(default_cc_map(), 86) == Some(SynthParam::Osc3Cents),
        lookup_param(default_cc_map(), 87) == Some(SynthParam::Osc1Phase),
        lookup_param(default_cc_map(), 89) == Some(SynthParam::Osc2Phase),
        lookup_param(default_cc_map(), 90) == Some(SynthParam::Osc3Phase),
        lookup_param(default_cc_map(), 103) == Some(SynthParam::FilterAttack),
        lookup_param(default_cc_map(), 104) == Some(SynthParam::FilterDecay),
        lookup_param(default_cc_map(), 105) == Some(SynthParam::FilterSustain),
        lookup_param(default_cc_map(), 106) == Some(SynthParam::FilterRelease),
        lookup_param(default_cc_map(), 107) == Some(SynthParam::FilterEnvAmount),
        lookup_param(default_cc_map(), 108) == Some(SynthParam::LfoRate),
        lookup_param(default_cc_map(), 109) == Some(SynthParam::LfoDepth),
        lookup_param(default_cc_map(), 110) == Some(SynthParam::LfoWaveform),
        lookup_param(default_cc_map(), 111) == Some(SynthParam::LfoDestination),
        lookup_param(default_cc_map(), 102) == Some(SynthParam::PitchBendRange),
        lookup_param(default_cc_map(), 5) == Some(SynthParam::PortamentoTime),
        !(cc == 5 || (71 <= cc <= 87) || cc == 89 || cc == 90 || (102 <= cc <= 111))
            ==> lookup_param(default_cc_map(), cc) is None,
        cc == 88 ==> lookup_param(default_cc_map(), cc) is None,
{
}

} // verus!
