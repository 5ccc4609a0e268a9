//! Single source of truth for every synth parameter's range, default,
//! curve and unit.
//!
//! One `ParamSpec` per `SynthParam`. Ranges and defaults are stored in
//! thousandths of the plain value (`min: 1` is `0.001`), so that every
//! entry of the table is exact; the curve arithmetic itself is done by the
//! audio side on top of these values.

use vstd::prelude::*;

use crate::params::{all_params, SynthParam};

verus! {

/// Number of synth parameters (the length of the stable index space).
pub const NUM_PARAMS: usize = 35;

/// How a normalized `[0, 1]` position maps to the plain parameter value.
#[derive(Debug, Clone, Copy, PartialEq, Eq, Structural)]
pub enum ParamCurve {
    /// `v = min + t * (max - min)`
    Linear,
    /// `v = min * (max / min) ^ t` — requires `min > 0`.
    Logarithmic,
    /// `t = 0` maps to exactly `0` (feature off); any `t > 0` maps
    /// logarithmically between `log_min` (thousandths) and `max`.
    LogarithmicWithZero { log_min: i32 },
}

/// Static description of one synth parameter.
#[derive(Debug, Clone, Copy)]
pub struct ParamSpec {
    pub param: SynthParam,
    /// Lower bound, in thousandths of the plain value.
    pub min: i32,
    /// Upper bound, in thousandths of the plain value.
    pub max: i32,
    /// Default value, in thousandths of the plain value.
    pub default: i32,
    pub curve: ParamCurve,
    /// Display unit suffix (e.g. `" s"`, `" Hz"`); empty for unitless.
    pub unit: &'static str,
    /// True when the parameter only takes whole-number values
    /// (waveform selectors, semitones, cents, pitch bend range, ...).
    pub stepped: bool,
}

/// Stable index of a parameter (ParamBank layout / preset serialization).
pub open spec fn param_index(p: SynthParam) -> nat {
    match p {
        SynthParam::Attack => 0,
        SynthParam::Decay => 1,
        SynthParam::Sustain => 2,
        SynthParam::Release => 3,
        SynthParam::FilterCutoff => 4,
        SynthParam::FilterResonance => 5,
        SynthParam::FilterAttack => 6,
        SynthParam::FilterDecay => 7,
        SynthParam::FilterSustain => 8,
        SynthParam::FilterRelease => 9,
        SynthParam::FilterEnvAmount => 10,
        SynthParam::LfoRate => 11,
        SynthParam::LfoDepth => 12,
        SynthParam::LfoWaveform => 13,
        SynthParam::LfoDestination => 14,
        SynthParam::PitchBendRange => 15,
        SynthParam::Osc1Waveform => 16,
        SynthParam::Osc1Level => 17,
        SynthParam::Osc1Phase => 18,
        SynthParam::Osc2Waveform => 19,
        SynthParam::Osc2Level => 20,
        SynthParam::Osc2Semitones => 21,
        SynthParam::Osc2Cents => 22,
        SynthParam::Osc2Phase => 23,
        SynthParam::Osc3Waveform => 24,
        SynthParam::Osc3Level => 25,
        SynthParam::Osc3Semitones => 26,
        SynthParam::Osc3Cents => 27,
        SynthParam::Osc3Phase => 28,
        SynthParam::Osc1Pan => 29,
        SynthParam::Osc2Pan => 30,
        SynthParam::Osc3Pan => 31,
        SynthParam::StereoWidth => 32,
        SynthParam::MasterVolume => 33,
        SynthParam::PortamentoTime => 34,
    }
}

/// The parameter whose stable index is `i`, if any.
pub open spec fn param_with_index(i: int) -> Option<SynthParam> {
    if i == 0 { Some(SynthParam::Attack) }
    else if i == 1 { Some(SynthParam::Decay) }
    else if i == 2 { Some(SynthParam::Sustain) }
    else if i == 3 { Some(SynthParam::Release) }
    else if i == 4 { Some(SynthParam::FilterCutoff) }
    else if i == 5 { Some(SynthParam::FilterResonance) }
    else if i == 6 { Some(SynthParam::FilterAttack) }
    else if i == 7 { Some(SynthParam::FilterDecay) }
    else if i == 8 { Some(SynthParam::FilterSustain) }
    else if i == 9 { Some(SynthParam::FilterRelease) }
    else if i == 10 { Some(SynthParam::FilterEnvAmount) }
    else if i == 11 { Some(SynthParam::LfoRate) }
    else if i == 12 { Some(SynthParam::LfoDepth) }
    else if i == 13 { Some(SynthParam::LfoWaveform) }
    else if i == 14 { Some(SynthParam::LfoDestination) }
    else if i == 15 { Some(SynthParam::PitchBendRange) }
    else if i == 16 { Some(SynthParam::Osc1Waveform) }
    else if i == 17 { Some(SynthParam::Osc1Level) }
    else if i == 18 { Some(SynthParam::Osc1Phase) }
    else if i == 19 { Some(SynthParam::Osc2Waveform) }
    else if i == 20 { Some(SynthParam::Osc2Level) }
    else if i == 21 { Some(SynthParam::Osc2Semitones) }
    else if i == 22 { Some(SynthParam::Osc2Cents) }
    else if i == 23 { Some(SynthParam::Osc2Phase) }
    else if i == 24 { Some(SynthParam::Osc3Waveform) }
    else if i == 25 { Some(SynthParam::Osc3Level) }
    else if i == 26 { Some(SynthParam::Osc3Semitones) }
    else if i == 27 { Some(SynthParam::Osc3Cents) }
    else if i == 28 { Some(SynthParam::Osc3Phase) }
    else if i == 29 { Some(SynthParam::Osc1Pan) }
    else if i == 30 { Some(SynthParam::Osc2Pan) }
    else if i == 31 { Some(SynthParam::Osc3Pan) }
    else if i == 32 { Some(SynthParam::StereoWidth) }
    else if i == 33 { Some(SynthParam::MasterVolume) }
    else if i == 34 { Some(SynthParam::PortamentoTime) }
    else { None }
}

/// Range, default, curve, unit and stepping of a parameter.
pub open spec fn param_spec_of(p: SynthParam) -> ParamSpec {
    match p {
        SynthParam::Attack => ParamSpec { param: SynthParam::Attack, min: 1, max: 5000, default: 10, curve: ParamCurve::Logarithmic, unit: " s", stepped: false },
        SynthParam::Decay => ParamSpec { param: SynthParam::Decay, min: 1, max: 5000, default: 100, curve: ParamCurve::Logarithmic, unit: " s", stepped: false },
        SynthParam::Sustain => ParamSpec { param: SynthParam::Sustain, min: 0, max: 1000, default: 700, curve: ParamCurve::Linear, unit: "", stepped: false },
        SynthParam::Release => ParamSpec { param: SynthParam::Release, min: 1, max: 5000, default: 200, curve: ParamCurve::Logarithmic, unit: " s", stepped: false },
        SynthParam::FilterCutoff => ParamSpec { param: SynthParam::FilterCutoff, min: 20000, max: 20000000, default: 20000000, curve: ParamCurve::Logarithmic, unit: " Hz", stepped: false },
        SynthParam::FilterResonance => ParamSpec { param: SynthParam::FilterResonance, min: 0, max: 1000, default: 0, curve: ParamCurve::Linear, unit: "", stepped: false },
        SynthParam::FilterAttack => ParamSpec { param: SynthParam::FilterAttack, min: 1, max: 5000, default: 10, curve: ParamCurve::Logarithmic, unit: " s", stepped: false },
        SynthParam::FilterDecay => ParamSpec { param: SynthParam::FilterDecay, min: 1, max: 5000, default: 300, curve: ParamCurve::Logarithmic, unit: " s", stepped: false },
        SynthParam::FilterSustain => ParamSpec { param: SynthParam::FilterSustain, min: 0, max: 1000, default: 0, curve: ParamCurve::Linear, unit: "", stepped: false },
        SynthParam::FilterRelease => ParamSpec { param: SynthParam::FilterRelease, min: 1, max: 5000, default: 300, curve: ParamCurve::Logarithmic, unit: " s", stepped: false },
        SynthParam::FilterEnvAmount => ParamSpec { param: SynthParam::FilterEnvAmount, min: 0, max: 1000, default: 0, curve: ParamCurve::Linear, unit: "", stepped: false },
        SynthParam::LfoRate => ParamSpec { param: SynthParam::LfoRate, min: 100, max: 20000, default: 6000, curve: ParamCurve::Logarithmic, unit: " Hz", stepped: false },
        SynthParam::LfoDepth => ParamSpec { param: SynthParam::LfoDepth, min: 0, max: 1000, default: 0, curve: ParamCurve::Linear, unit: "", stepped: false },
        SynthParam::LfoWaveform => ParamSpec { param: SynthParam::LfoWaveform, min: 0, max: 4000, default: 0, curve: ParamCurve::Linear, unit: "", stepped: true },
        SynthParam::LfoDestination => ParamSpec { param: SynthParam::LfoDestination, min: 0, max: 3000, default: 0, curve: ParamCurve::Linear, unit: "", stepped: true },
        SynthParam::PitchBendRange => ParamSpec { param: SynthParam::PitchBendRange, min: 1000, max: 24000, default: 12000, curve: ParamCurve::Linear, unit: "", stepped: true },
        SynthParam::PortamentoTime => ParamSpec { param: SynthParam::PortamentoTime, min: 0, max: 3000, default: 0, curve: ParamCurve::LogarithmicWithZero { log_min: 5 }, unit: " s", stepped: false },
        SynthParam::Osc1Waveform => ParamSpec { param: SynthParam::Osc1Waveform, min: 0, max: 4000, default: 2000, curve: ParamCurve::Linear, unit: "", stepped: true },
        SynthParam::Osc1Level => ParamSpec { param: SynthParam::Osc1Level, min: 0, max: 1000, default: 1000, curve: ParamCurve::Linear, unit: "", stepped: false },
        SynthParam::Osc1Phase => ParamSpec { param: SynthParam::Osc1Phase, min: 0, max: 1000, default: 0, curve: ParamCurve::Linear, unit: "", stepped: false },
        SynthParam::Osc2Waveform => ParamSpec { param: SynthParam::Osc2Waveform, min: 0, max: 4000, default: 2000, curve: ParamCurve::Linear, unit: "", stepped: true },
        SynthParam::Osc2Level => ParamSpec { param: SynthParam::Osc2Level, min: 0, max: 1000, default: 800, curve: ParamCurve::Linear, unit: "", stepped: false },
        SynthParam::Osc2Semitones => ParamSpec { param: SynthParam::Osc2Semitones, min: -24000i32, max: 24000, default: 0, curve: ParamCurve::Linear, unit: "", stepped: true },
        SynthParam::Osc2Cents => ParamSpec { param: SynthParam::Osc2Cents, min: -100000i32, max: 100000, default: 7000, curve: ParamCurve::Linear, unit: "", stepped: true },
        SynthParam::Osc2Phase => ParamSpec { param: SynthParam::Osc2Phase, min: 0, max: 1000, default: 0, curve: ParamCurve::Linear, unit: "", stepped: false },
        SynthParam::Osc3Waveform => ParamSpec { param: SynthParam::Osc3Waveform, min: 0, max: 4000, default: 1000, curve: ParamCurve::Linear, unit: "", stepped: true },
        SynthParam::Osc3Level => ParamSpec { param: SynthParam::Osc3Level, min: 0, max: 1000, default: 500, curve: ParamCurve::Linear, unit: "", stepped: false },
        SynthParam::Osc3Semitones => ParamSpec { param: SynthParam::Osc3Semitones, min: -24000i32, max: 24000, default: -12000i32, curve: ParamCurve::Linear, unit: "", stepped: true },
        SynthParam::Osc3Cents => ParamSpec { param: SynthParam::Osc3Cents, min: -100000i32, max: 100000, default: 0, curve: ParamCurve::Linear, unit: "", stepped: true },
        SynthParam::Osc3Phase => ParamSpec { param: SynthParam::Osc3Phase, min: 0, max: 1000, default: 0, curve: ParamCurve::Linear, unit: "", stepped: false },
        SynthParam::Osc1Pan => ParamSpec { param: SynthParam::Osc1Pan, min: -1000i32, max: 1000, default: 0, curve: ParamCurve::Linear, unit: "", stepped: false },
        SynthParam::Osc2Pan => ParamSpec { param: SynthParam::Osc2Pan, min: -1000i32, max: 1000, default: -300i32, curve: ParamCurve::Linear, unit: "", stepped: false },
        SynthParam::Osc3Pan => ParamSpec { param: SynthParam::Osc3Pan, min: -1000i32, max: 1000, default: 300, curve: ParamCurve::Linear, unit: "", stepped: false },
        SynthParam::StereoWidth => ParamSpec { param: SynthParam::StereoWidth, min: 0, max: 2000, default: 1000, curve: ParamCurve::Linear, unit: "", stepped: false },
        SynthParam::MasterVolume => ParamSpec { param: SynthParam::MasterVolume, min: 0, max: 1000, default: 500, curve: ParamCurve::Linear, unit: "", stepped: false },
    }
}

/// Stable index of a parameter (ParamBank layout / preset serialization).
pub fn index(param: SynthParam) -> (r: usize)
    ensures
        r == param_index(param),
        r < NUM_PARAMS,
{
    match param {
        SynthParam::Attack => 0,
        SynthParam::Decay => 1,
        SynthParam::Sustain => 2,
        SynthParam::Release => 3,
        SynthParam::FilterCutoff => 4,
        SynthParam::FilterResonance => 5,
        SynthParam::FilterAttack => 6,
        SynthParam::FilterDecay => 7,
        SynthParam::FilterSustain => 8,
        SynthParam::FilterRelease => 9,
        SynthParam::FilterEnvAmount => 10,
        SynthParam::LfoRate => 11,
        SynthParam::LfoDepth => 12,
        SynthParam::LfoWaveform => 13,
        SynthParam::LfoDestination => 14,
        SynthParam::PitchBendRange => 15,
        SynthParam::Osc1Waveform => 16,
        SynthParam::Osc1Level => 17,
        SynthParam::Osc1Phase => 18,
        SynthParam::Osc2Waveform => 19,
        SynthParam::Osc2Level => 20,
        SynthParam::Osc2Semitones => 21,
        SynthParam::Osc2Cents => 22,
        SynthParam::Osc2Phase => 23,
        SynthParam::Osc3Waveform => 24,
        SynthParam::Osc3Level => 25,
        SynthParam::Osc3Semitones => 26,
        SynthParam::Osc3Cents => 27,
        SynthParam::Osc3Phase => 28,
        SynthParam::Osc1Pan => 29,
        SynthParam::Osc2Pan => 30,
        SynthParam::Osc3Pan => 31,
        SynthParam::StereoWidth => 32,
        SynthParam::MasterVolume => 33,
        SynthParam::PortamentoTime => 34,
    }
}

/// Inverse of [`index`].
pub fn param_at_index(i: usize) -> (r: Option<SynthParam>)
    ensures
        r == param_with_index(i as int),
        match r {
            Some(p) => param_index(p) == i,
            None => i >= NUM_PARAMS,
        },
{
    match i {
        0 => Some(SynthParam::Attack),
        1 => Some(SynthParam::Decay),
        2 => Some(SynthParam::Sustain),
        3 => Some(SynthParam::Release),
        4 => Some(SynthParam::FilterCutoff),
        5 => Some(SynthParam::FilterResonance),
        6 => Some(SynthParam::FilterAttack),
        7 => Some(SynthParam::FilterDecay),
        8 => Some(SynthParam::FilterSustain),
        9 => Some(SynthParam::FilterRelease),
        10 => Some(SynthParam::FilterEnvAmount),
        11 => Some(SynthParam::LfoRate),
        12 => Some(SynthParam::LfoDepth),
        13 => Some(SynthParam::LfoWaveform),
        14 => Some(SynthParam::LfoDestination),
        15 => Some(SynthParam::PitchBendRange),
        16 => Some(SynthParam::Osc1Waveform),
        17 => Some(SynthParam::Osc1Level),
        18 => Some(SynthParam::Osc1Phase),
        19 => Some(SynthParam::Osc2Waveform),
        20 => Some(SynthParam::Osc2Level),
        21 => Some(SynthParam::Osc2Semitones),
        22 => Some(SynthParam::Osc2Cents),
        23 => Some(SynthParam::Osc2Phase),
        24 => Some(SynthParam::Osc3Waveform),
        25 => Some(SynthParam::Osc3Level),
        26 => Some(SynthParam::Osc3Semitones),
        27 => Some(SynthParam::Osc3Cents),
        28 => Some(SynthParam::Osc3Phase),
        29 => Some(SynthParam::Osc1Pan),
        30 => Some(SynthParam::Osc2Pan),
        31 => Some(SynthParam::Osc3Pan),
        32 => Some(SynthParam::StereoWidth),
        33 => Some(SynthParam::MasterVolume),
        34 => Some(SynthParam::PortamentoTime),
        _ => None,
    }
}

/// Look up the spec for a parameter.
pub fn spec(param: SynthParam) -> (r: ParamSpec)
    ensures
        r == param_spec_of(param),
{
    match param {
        SynthParam::Attack => ParamSpec { param: SynthParam::Attack, min: 1, max: 5000, default: 10, curve: ParamCurve::Logarithmic, unit: " s", stepped: false },
        SynthParam::Decay => ParamSpec { param: SynthParam::Decay, min: 1, max: 5000, default: 100, curve: ParamCurve::Logarithmic, unit: " s", stepped: false },
        SynthParam::Sustain => ParamSpec { param: SynthParam::Sustain, min: 0, max: 1000, default: 700, curve: ParamCurve::Linear, unit: "", stepped: false },
        SynthParam::Release => ParamSpec { param: SynthParam::Release, min: 1, max: 5000, default: 200, curve: ParamCurve::Logarithmic, unit: " s", stepped: false },
        SynthParam::FilterCutoff => ParamSpec { param: SynthParam::FilterCutoff, min: 20000, max: 20000000, default: 20000000, curve: ParamCurve::Logarithmic, unit: " Hz", stepped: false },
        SynthParam::FilterResonance => ParamSpec { param: SynthParam::FilterResonance, min: 0, max: 1000, default: 0, curve: ParamCurve::Linear, unit: "", stepped: false },
        SynthParam::FilterAttack => ParamSpec { param: SynthParam::FilterAttack, min: 1, max: 5000, default: 10, curve: ParamCurve::Logarithmic, unit: " s", stepped: false },
        SynthParam::FilterDecay => ParamSpec { param: SynthParam::FilterDecay, min: 1, max: 5000, default: 300, curve: ParamCurve::Logarithmic, unit: " s", stepped: false },
        SynthParam::FilterSustain => ParamSpec { param: SynthParam::FilterSustain, min: 0, max: 1000, default: 0, curve: ParamCurve::Linear, unit: "", stepped: false },
        SynthParam::FilterRelease => ParamSpec { param: SynthParam::FilterRelease, min: 1, max: 5000, default: 300, curve: ParamCurve::Logarithmic, unit: " s", stepped: false },
        SynthParam::FilterEnvAmount => ParamSpec { param: SynthParam::FilterEnvAmount, min: 0, max: 1000, default: 0, curve: ParamCurve::Linear, unit: "", stepped: false },
        SynthParam::LfoRate => ParamSpec { param: SynthParam::LfoRate, min: 100, max: 20000, default: 6000, curve: ParamCurve::Logarithmic, unit: " Hz", stepped: false },
        SynthParam::LfoDepth => ParamSpec { param: SynthParam::LfoDepth, min: 0, max: 1000, default: 0, curve: ParamCurve::Linear, unit: "", stepped: false },
        SynthParam::LfoWaveform => ParamSpec { param: SynthParam::LfoWaveform, min: 0, max: 4000, default: 0, curve: ParamCurve::Linear, unit: "", stepped: true },
        SynthParam::LfoDestination => ParamSpec { param: SynthParam::LfoDestination, min: 0, max: 3000, default: 0, curve: ParamCurve::Linear, unit: "", stepped: true },
        SynthParam::PitchBendRange => ParamSpec { param: SynthParam::PitchBendRange, min: 1000, max: 24000, default: 12000, curve: ParamCurve::Linear, unit: "", stepped: true },
        SynthParam::PortamentoTime => ParamSpec { param: SynthParam::PortamentoTime, min: 0, max: 3000, default: 0, curve: ParamCurve::LogarithmicWithZero { log_min: 5 }, unit: " s", stepped: false },
        SynthParam::Osc1Waveform => ParamSpec { param: SynthParam::Osc1Waveform, min: 0, max: 4000, default: 2000, curve: ParamCurve::Linear, unit: "", stepped: true },
        SynthParam::Osc1Level => ParamSpec { param: SynthParam::Osc1Level, min: 0, max: 1000, default: 1000, curve: ParamCurve::Linear, unit: "", stepped: false },
        SynthParam::Osc1Phase => ParamSpec { param: SynthParam::Osc1Phase, min: 0, max: 1000, default: 0, curve: ParamCurve::Linear, unit: "", stepped: false },
        SynthParam::Osc2Waveform => ParamSpec { param: SynthParam::Osc2Waveform, min: 0, max: 4000, default: 2000, curve: ParamCurve::Linear, unit: "", stepped: true },
        SynthParam::Osc2Level => ParamSpec { param: SynthParam::Osc2Level, min: 0, max: 1000, default: 800, curve: ParamCurve::Linear, unit: "", stepped: false },
        SynthParam::Osc2Semitones => ParamSpec { param: SynthParam::Osc2Semitones, min: -24000i32, max: 24000, default: 0, curve: ParamCurve::Linear, unit: "", stepped: true },
        SynthParam::Osc2Cents => ParamSpec { param: SynthParam::Osc2Cents, min: -100000i32, max: 100000, default: 7000, curve: ParamCurve::Linear, unit: "", stepped: true },
        SynthParam::Osc2Phase => ParamSpec { param: SynthParam::Osc2Phase, min: 0, max: 1000, default: 0, curve: ParamCurve::Linear, unit: "", stepped: false },
        SynthParam::Osc3Waveform => ParamSpec { param: SynthParam::Osc3Waveform, min: 0, max: 4000, default: 1000, curve: ParamCurve::Linear, unit: "", stepped: true },
        SynthParam::Osc3Level => ParamSpec { param: SynthParam::Osc3Level, min: 0, max: 1000, default: 500, curve: ParamCurve::Linear, unit: "", stepped: false },
        SynthParam::Osc3Semitones => ParamSpec { param: SynthParam::Osc3Semitones, min: -24000i32, max: 24000, default: -12000i32, curve: ParamCurve::Linear, unit: "", stepped: true },
        SynthParam::Osc3Cents => ParamSpec { param: SynthParam::Osc3Cents, min: -100000i32, max: 100000, default: 0, curve: ParamCurve::Linear, unit: "", stepped: true },
        SynthParam::Osc3Phase => ParamSpec { param: SynthParam::Osc3Phase, min: 0, max: 1000, default: 0, curve: ParamCurve::Linear, unit: "", stepped: false },
        SynthParam::Osc1Pan => ParamSpec { param: SynthParam::Osc1Pan, min: -1000i32, max: 1000, default: 0, curve: ParamCurve::Linear, unit: "", stepped: false },
        SynthParam::Osc2Pan => ParamSpec { param: SynthParam::Osc2Pan, min: -1000i32, max: 1000, default: -300i32, curve: ParamCurve::Linear, unit: "", stepped: false },
        SynthParam::Osc3Pan => ParamSpec { param: SynthParam::Osc3Pan, min: -1000i32, max: 1000, default: 300, curve: ParamCurve::Linear, unit: "", stepped: false },
        SynthParam::StereoWidth => ParamSpec { param: SynthParam::StereoWidth, min: 0, max: 2000, default: 1000, curve: ParamCurve::Linear, unit: "", stepped: false },
        SynthParam::MasterVolume => ParamSpec { param: SynthParam::MasterVolume, min: 0, max: 1000, default: 500, curve: ParamCurve::Linear, unit: "", stepped: false },
    }
}

/// Every parameter's spec, in the order of [`SynthParam::all`].
pub fn param_specs() -> (r: Vec<ParamSpec>)
    ensures
        r@.len() == all_params().len(),
        forall|i: int| 0 <= i < r@.len() ==> #[trigger] r@[i] == param_spec_of(all_params()[i]),
{
    let all = SynthParam::all();
    let mut v: Vec<ParamSpec> = Vec::new();
    let mut i: usize = 0;
    while i < all.len()
        invariant
            all@ == all_params(),
            i <= all@.len(),
            v@.len() == i,
            forall|j: int| 0 <= j < i ==> #[trigger] v@[j] == param_spec_of(all_params()[j]),
        decreases all@.len() - i,
    {
        v.push(spec(all[i]));
        i = i + 1;
    }
    v
}

/// The stable index is a bijection between the parameters and `0..NUM_PARAMS`:
/// looking a parameter's index back up gives the parameter again, and every
/// index below `NUM_PARAMS` names exactly one parameter.
pub proof fn lemma_index_round_trip(p: SynthParam, i: int)
    ensures
        param_index(p) < NUM_PARAMS,
        param_with_index(param_index(p) as int) == Some(p),
        0 <= i < NUM_PARAMS ==> param_with_index(i) is Some,
        param_with_index(i) matches Some(q) ==> param_index(q) == i,
        !(0 <= i < NUM_PARAMS) ==> param_with_index(i) is None,
{
}

/// Two parameters with the same stable index are the same parameter.
pub proof fn lemma_index_injective(p: SynthParam, q: SynthParam)
    ensures
        param_index(p) == param_index(q) ==> p == q,
{
    lemma_index_round_trip(p, 0);
    lemma_index_round_trip(q, 0);
}

/// `SynthParam::all` lists every parameter exactly once, and there are
/// exactly as many parameters as spec entries.
pub proof fn lemma_all_params_complete(p: SynthParam)
    ensures
        all_params().len() == NUM_PARAMS,
        all_params().contains(p),
        forall|i: int, j: int|
            0 <= i < j < all_params().len() ==> all_params()[i] != all_params()[j],
{
    let s = all_params();
    assert(s.len() == 35);
    assert(s[0] == SynthParam::Attack);
    assert(forall|i: int| 0 <= i < 35 ==> s[i] == #[trigger] s[i]);
    assert(s.contains(p)) by {
        let k = all_position(p);
        assert(s[k] == p);
    }
    assert forall|i: int, j: int| 0 <= i < j < s.len() implies s[i] != s[j] by {
        lemma_index_injective(s[i], s[j]);
    }
}

/// Position of a parameter in `all_params()`.
spec fn all_position(p: SynthParam) -> int {
    match p {
        SynthParam::Attack => 0,
        SynthParam::Decay => 1,
        SynthParam::Sustain => 2,
        SynthParam::Release => 3,
        SynthParam::FilterCutoff => 4,
        SynthParam::FilterResonance => 5,
        SynthParam::FilterAttack => 6,
        SynthParam::FilterDecay => 7,
        SynthParam::FilterSustain => 8,
        SynthParam::FilterRelease => 9,
        SynthParam::FilterEnvAmount => 10,
        SynthParam::LfoRate => 11,
        SynthParam::LfoDepth => 12,
        SynthParam::LfoWaveform => 13,
        SynthParam::LfoDestination => 14,
        SynthParam::PitchBendRange => 15,
        SynthParam::PortamentoTime => 16,
        SynthParam::Osc1Waveform => 17,
        SynthParam::Osc1Level => 18,
        SynthParam::Osc1Phase => 19,
        SynthParam::Osc2Waveform => 20,
        SynthParam::Osc2Level => 21,
        SynthParam::Osc2Semitones => 22,
        SynthParam::Osc2Cents => 23,
        SynthParam::Osc2Phase => 24,
        SynthParam::Osc3Waveform => 25,
        SynthParam::Osc3Level => 26,
        SynthParam::Osc3Semitones => 27,
        SynthParam::Osc3Cents => 28,
        SynthParam::Osc3Phase => 29,
        SynthParam::Osc1Pan => 30,
        SynthParam::Osc2Pan => 31,
        SynthParam::Osc3Pan => 32,
        SynthParam::StereoWidth => 33,
        SynthParam::MasterVolume => 34,
    }
}

/// Every spec entry describes its own parameter, has a non-empty range and a
/// default inside that range; logarithmic curves start above zero, the
/// "off position" curve starts at zero with its log segment inside the range,
/// and stepped parameters have whole-number bounds and default.
pub proof fn lemma_spec_table_well_formed(p: SynthParam)
    ensures
        param_spec_of(p).param == p,
        param_spec_of(p).min < param_spec_of(p).max,
        param_spec_of(p).min <= param_spec_of(p).default <= param_spec_of(p).max,
        param_spec_of(p).curve == ParamCurve::Logarithmic ==> param_spec_of(p).min > 0,
        param_spec_of(p).curve matches ParamCurve::LogarithmicWithZero { log_min } ==> {
            &&& param_spec_of(p).min == 0
            &&& 0 < log_min < param_spec_of(p).max
        },
        param_spec_of(p).stepped ==> {
            &&& param_spec_of(p).min % 1000 == 0
            &&& param_spec_of(p).max % 1000 == 0
            &&& param_spec_of(p).default % 1000 == 0
        },
{
}

/// Whether a parameter only takes whole-number values: the waveform and LFO
/// selectors and the pitch settings counted in whole semitones or cents.
pub open spec fn is_whole_number_param(p: SynthParam) -> bool {
    match p {
        SynthParam::Osc1Waveform | SynthParam::Osc2Waveform | SynthParam::Osc3Waveform
        | SynthParam::LfoWaveform | SynthParam::LfoDestination | SynthParam::PitchBendRange
        | SynthParam::Osc2Semitones | SynthParam::Osc3Semitones | SynthParam::Osc2Cents
        | SynthParam::Osc3Cents => true,
        _ => false,
    }
}

/// A parameter is stepped exactly when it is a selector or a whole-number
/// pitch setting; every stepped parameter has at least four positions, and a
/// parameter whose range spans at most one unit (levels, resonance, depths,
/// phases, sustain, volume) varies continuously.
pub proof fn lemma_stepped_params(p: SynthParam)
    ensures
        param_spec_of(p).stepped <==> is_whole_number_param(p),
        param_spec_of(p).stepped ==> param_spec_of(p).max - param_spec_of(p).min >= 3000,
        param_spec_of(p).max - param_spec_of(p).min <= 1000 ==> !param_spec_of(p).stepped,
{
}

} // verus!
