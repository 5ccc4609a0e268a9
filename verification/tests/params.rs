use rust_in_synth::params::{
    cc_to_cents, cc_to_lfo_destination, cc_to_lfo_waveform, cc_to_pitch_bend_range,
    cc_to_semitones, cc_to_waveform, CCMapping, SynthParam,
};

#[test]
fn test_cc_mapping() {
    let mut mapping = CCMapping::new();
    mapping.map(73, SynthParam::Attack);

    assert_eq!(mapping.get_param(73), Some(SynthParam::Attack));
    assert_eq!(mapping.get_cc(SynthParam::Attack), Some(73));
}

#[test]
fn test_default_mappings() {
    let mapping = CCMapping::default_mappings();
    // Envelope
    assert_eq!(mapping.get_param(72), Some(SynthParam::Release));
    assert_eq!(mapping.get_param(73), Some(SynthParam::Attack));
    // Filter
    assert_eq!(mapping.get_param(74), Some(SynthParam::FilterCutoff));
    assert_eq!(mapping.get_param(71), Some(SynthParam::FilterResonance));
    // Oscillator waveforms
    assert_eq!(mapping.get_param(75), Some(SynthParam::Osc1Waveform));
    assert_eq!(mapping.get_param(76), Some(SynthParam::Osc2Waveform));
    assert_eq!(mapping.get_param(77), Some(SynthParam::Osc3Waveform));
    // Oscillator levels
    assert_eq!(mapping.get_param(80), Some(SynthParam::Osc1Level));
    assert_eq!(mapping.get_param(81), Some(SynthParam::Osc2Level));
    assert_eq!(mapping.get_param(82), Some(SynthParam::Osc3Level));
}

#[test]
fn test_cc_to_semitones() {
    assert_eq!(cc_to_semitones(0), -24);
    assert_eq!(cc_to_semitones(64), 0);
    assert_eq!(cc_to_semitones(127), 24);
}

#[test]
fn test_cc_to_cents() {
    assert_eq!(cc_to_cents(0), -100);
    assert_eq!(cc_to_cents(64), 0);
    assert_eq!(cc_to_cents(127), 100);
}

#[test]
fn test_cc_to_waveform() {
    assert_eq!(cc_to_waveform(0), 0); // Sine
    assert_eq!(cc_to_waveform(31), 0); // Sine
    assert_eq!(cc_to_waveform(32), 1); // Square
    assert_eq!(cc_to_waveform(64), 2); // Saw
    assert_eq!(cc_to_waveform(96), 3); // Triangle
    assert_eq!(cc_to_waveform(127), 3); // Triangle
}

#[test]
fn semitones_and_cents_round_toward_zero() {
    // (1 - 64) * 24 / 63 = -24.0 exactly; (63 - 64) * 24 / 63 = -0.38 -> 0
    assert_eq!(cc_to_semitones(1), -24);
    assert_eq!(cc_to_semitones(63), 0);
    assert_eq!(cc_to_semitones(65), 0);
    assert_eq!(cc_to_semitones(96), 12);
    assert_eq!(cc_to_semitones(32), -12);
    assert_eq!(cc_to_cents(63), -1);
    assert_eq!(cc_to_cents(65), 1);
    assert_eq!(cc_to_cents(255), 100);
}

#[test]
fn lfo_selectors_cover_their_ranges() {
    assert_eq!(cc_to_lfo_waveform(0), 0);
    assert_eq!(cc_to_lfo_waveform(25), 0);
    assert_eq!(cc_to_lfo_waveform(26), 1);
    assert_eq!(cc_to_lfo_waveform(103), 3);
    assert_eq!(cc_to_lfo_waveform(104), 4);
    assert_eq!(cc_to_lfo_waveform(127), 4);
    assert_eq!(cc_to_lfo_waveform(255), 4);
    assert_eq!(cc_to_lfo_destination(0), 0);
    assert_eq!(cc_to_lfo_destination(32), 1);
    assert_eq!(cc_to_lfo_destination(64), 2);
    assert_eq!(cc_to_lfo_destination(127), 3);
}

#[test]
fn pitch_bend_range_steps() {
    assert_eq!(cc_to_pitch_bend_range(0), 1);
    assert_eq!(cc_to_pitch_bend_range(5), 1);
    assert_eq!(cc_to_pitch_bend_range(6), 2);
    assert_eq!(cc_to_pitch_bend_range(64), 13);
    assert_eq!(cc_to_pitch_bend_range(127), 24);
    assert_eq!(cc_to_pitch_bend_range(255), 24);
}

#[test]
fn converters_are_monotone() {
    for a in 0..=255u8 {
        for b in a..=255u8 {
            assert!(cc_to_semitones(a) <= cc_to_semitones(b));
            assert!(cc_to_cents(a) <= cc_to_cents(b));
            assert!(cc_to_waveform(a) <= cc_to_waveform(b));
            assert!(cc_to_lfo_waveform(a) <= cc_to_lfo_waveform(b));
            assert!(cc_to_lfo_destination(a) <= cc_to_lfo_destination(b));
            assert!(cc_to_pitch_bend_range(a) <= cc_to_pitch_bend_range(b));
        }
    }
}

#[test]
fn remapping_a_param_frees_its_old_cc() {
    let mut mapping = CCMapping::new();
    mapping.map(73, SynthParam::Attack);
    mapping.map(20, SynthParam::Attack);
    assert_eq!(mapping.get_param(73), None);
    assert_eq!(mapping.get_param(20), Some(SynthParam::Attack));
    assert_eq!(mapping.get_cc(SynthParam::Attack), Some(20));
}

#[test]
fn remapping_a_cc_unbinds_its_old_param() {
    let mut mapping = CCMapping::default_mappings();
    mapping.map(73, SynthParam::MasterVolume);
    assert_eq!(mapping.get_param(73), Some(SynthParam::MasterVolume));
    assert_eq!(mapping.get_cc(SynthParam::Attack), None);
    assert_eq!(mapping.get_cc(SynthParam::MasterVolume), Some(73));
    // other bindings untouched
    assert_eq!(mapping.get_param(72), Some(SynthParam::Release));
}

#[test]
fn unmap_cc_removes_both_directions() {
    let mut mapping = CCMapping::default_mappings();
    mapping.unmap_cc(74);
    assert_eq!(mapping.get_param(74), None);
    assert_eq!(mapping.get_cc(SynthParam::FilterCutoff), None);
    mapping.unmap_cc(200);
    assert_eq!(mapping.list_mappings().len(), 29);
}

#[test]
fn list_mappings_is_sorted_and_complete() {
    let mapping = CCMapping::default_mappings();
    let list = mapping.list_mappings();
    assert_eq!(list.len(), 30);
    assert_eq!(list[0], (5, SynthParam::PortamentoTime));
    assert_eq!(list[29], (111, SynthParam::LfoDestination));
    for w in list.windows(2) {
        assert!(w[0].0 < w[1].0);
    }
    for (cc, p) in &list {
        assert_eq!(mapping.get_param(*cc), Some(*p));
        assert_eq!(mapping.get_cc(*p), Some(*cc));
    }
    let high = {
        let mut m = CCMapping::new();
        m.map(255, SynthParam::StereoWidth);
        m.map(0, SynthParam::Osc1Pan);
        m.list_mappings()
    };
    assert_eq!(high, vec![(0, SynthParam::Osc1Pan), (255, SynthParam::StereoWidth)]);
}

#[test]
fn default_trait_and_clone_match_default_mappings() {
    let d = CCMapping::default();
    let c = d.clone();
    assert_eq!(c.list_mappings(), CCMapping::default_mappings().list_mappings());
    assert_eq!(c.get_param(5), Some(SynthParam::PortamentoTime));
    assert_eq!(c.get_param(102), Some(SynthParam::PitchBendRange));
}

#[test]
fn names_and_short_names() {
    assert_eq!(SynthParam::Attack.name(), "Attack");
    assert_eq!(SynthParam::FilterEnvAmount.name(), "Filter Env Amount");
    assert_eq!(SynthParam::Osc2Cents.short_name(), "O2C");
    assert_eq!(SynthParam::MasterVolume.short_name(), "VOL");
    assert_eq!(SynthParam::all().len(), 35);
    assert_eq!(SynthParam::all()[0], SynthParam::Attack);
    assert_eq!(SynthParam::all()[34], SynthParam::MasterVolume);
}

#[test]
fn from_name_inverts_name() {
    for &p in SynthParam::all() {
        assert_eq!(SynthParam::from_name(p.name()), Some(p));
    }
    assert_eq!(SynthParam::from_name("Not A Param"), None);
    assert_eq!(SynthParam::from_name("attack"), None);
}
