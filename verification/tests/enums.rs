use rust_in_synth::event::WaveformType;
use rust_in_synth::filter::FilterMode;
use rust_in_synth::lfo::{LfoDestination, LfoWaveform};
use rust_in_synth::params::{cc_to_lfo_destination, cc_to_lfo_waveform};

#[test]
fn waveform_from_index_wraps() {
    assert_eq!(WaveformType::from_index(0), WaveformType::Sine);
    assert_eq!(WaveformType::from_index(1), WaveformType::Square);
    assert_eq!(WaveformType::from_index(2), WaveformType::Saw);
    assert_eq!(WaveformType::from_index(3), WaveformType::Triangle);
    assert_eq!(WaveformType::from_index(4), WaveformType::Noise);
    assert_eq!(WaveformType::from_index(5), WaveformType::Sine);
    assert_eq!(WaveformType::from_index(255), WaveformType::Sine);
    assert_eq!(WaveformType::from_index(254), WaveformType::Noise);
    assert_eq!(WaveformType::default(), WaveformType::Sine);
}

#[test]
fn display_names() {
    assert_eq!(WaveformType::Saw.name(), "Sawtooth");
    assert_eq!(WaveformType::Noise.name(), "Noise");
    assert_eq!(FilterMode::BandPass.name(), "BandPass");
    assert_eq!(FilterMode::default(), FilterMode::LowPass);
    assert_eq!(LfoDestination::FilterCutoff.name(), "Filter");
    assert_eq!(LfoDestination::default(), LfoDestination::Off);
    assert_eq!(LfoWaveform::Random.name(), "Random");
    assert_eq!(LfoWaveform::default(), LfoWaveform::Sine);
}

#[test]
fn all_lfo_destinations() {
    assert_eq!(
        LfoDestination::all(),
        &[LfoDestination::Off, LfoDestination::Pitch, LfoDestination::FilterCutoff, LfoDestination::Amplitude]
    );
}

#[test]
fn lfo_waveform_from_index_saturates_at_random() {
    assert_eq!(LfoWaveform::from_index(0), LfoWaveform::Sine);
    assert_eq!(LfoWaveform::from_index(1), LfoWaveform::Triangle);
    assert_eq!(LfoWaveform::from_index(2), LfoWaveform::Square);
    assert_eq!(LfoWaveform::from_index(3), LfoWaveform::Saw);
    assert_eq!(LfoWaveform::from_index(4), LfoWaveform::Random);
    assert_eq!(LfoWaveform::from_index(200), LfoWaveform::Random);
}

#[test]
fn lfo_destination_from_index_saturates_at_amplitude() {
    assert_eq!(LfoDestination::from_index(0), LfoDestination::Off);
    assert_eq!(LfoDestination::from_index(1), LfoDestination::Pitch);
    assert_eq!(LfoDestination::from_index(2), LfoDestination::FilterCutoff);
    assert_eq!(LfoDestination::from_index(3), LfoDestination::Amplitude);
    assert_eq!(LfoDestination::from_index(9), LfoDestination::Amplitude);
}

#[test]
fn cc_bands_select_lfo_settings() {
    assert_eq!(LfoWaveform::from_index(cc_to_lfo_waveform(25)), LfoWaveform::Sine);
    assert_eq!(LfoWaveform::from_index(cc_to_lfo_waveform(26)), LfoWaveform::Triangle);
    assert_eq!(LfoWaveform::from_index(cc_to_lfo_waveform(77)), LfoWaveform::Square);
    assert_eq!(LfoWaveform::from_index(cc_to_lfo_waveform(78)), LfoWaveform::Saw);
    assert_eq!(LfoWaveform::from_index(cc_to_lfo_waveform(104)), LfoWaveform::Random);
    assert_eq!(LfoDestination::from_index(cc_to_lfo_destination(31)), LfoDestination::Off);
    assert_eq!(LfoDestination::from_index(cc_to_lfo_destination(32)), LfoDestination::Pitch);
    assert_eq!(LfoDestination::from_index(cc_to_lfo_destination(95)), LfoDestination::FilterCutoff);
    assert_eq!(LfoDestination::from_index(cc_to_lfo_destination(127)), LfoDestination::Amplitude);
}
