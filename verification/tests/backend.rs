use rust_in_synth::errors::{AudioError, PresetError};
use rust_in_synth::gui::{
    cc_activity_sorted, default_cc_param, index_to_param, CcMapping, MidiLearn, MidiLearnState,
};
use rust_in_synth::param_spec::spec;
use rust_in_synth::params::{CCMapping, SynthParam};
use rust_in_synth::shared_state::PluginSharedState;

#[test]
fn index_to_param_matches_table() {
    assert_eq!(index_to_param(0), Some(SynthParam::Attack));
    assert_eq!(index_to_param(33), Some(SynthParam::MasterVolume));
    assert_eq!(index_to_param(35), None);
}

#[test]
fn default_routing_is_the_default_layout() {
    let defaults = CCMapping::default_mappings();
    for cc in 0..=255u8 {
        assert_eq!(default_cc_param(cc), defaults.get_param(cc));
    }
    assert_eq!(default_cc_param(5), Some(SynthParam::PortamentoTime));
    assert_eq!(default_cc_param(20), None);
}

#[test]
fn documented_ccs_drive_their_parameters_without_custom_mappings() {
    let learn = MidiLearn::new(&vec![]);
    assert_eq!(learn.target_for_cc(78), Some(SynthParam::Osc2Semitones));
    assert_eq!(learn.target_for_cc(79), Some(SynthParam::Osc3Semitones));
    assert_eq!(learn.target_for_cc(85), Some(SynthParam::Osc2Cents));
    assert_eq!(learn.target_for_cc(86), Some(SynthParam::Osc3Cents));
    assert_eq!(learn.target_for_cc(87), Some(SynthParam::Osc1Phase));
    assert_eq!(learn.target_for_cc(89), Some(SynthParam::Osc2Phase));
    assert_eq!(learn.target_for_cc(90), Some(SynthParam::Osc3Phase));
    assert_eq!(learn.target_for_cc(102), Some(SynthParam::PitchBendRange));
    assert_eq!(learn.target_for_cc(73), Some(SynthParam::Attack));
    assert_eq!(learn.target_for_cc(88), None);
    // CC 0 on OSC2 Semitones is the bottom of its spec range: -24 semitones
    assert_eq!(spec(SynthParam::Osc2Semitones).min, -24000);
}

#[test]
fn midi_learn_binds_next_cc() {
    let mut learn = MidiLearn::new(&vec![]);
    assert_eq!(learn.midi_learn_state(), MidiLearnState::Idle);
    assert_eq!(learn.on_control_change(20), None);
    assert_eq!(learn.target_for_cc(20), None);
    learn.start_midi_learn(SynthParam::Osc1Pan);
    assert_eq!(learn.midi_learn_state(), MidiLearnState::Waiting(SynthParam::Osc1Pan));
    assert_eq!(learn.on_control_change(20), Some(CcMapping { cc: 20, param: SynthParam::Osc1Pan }));
    assert_eq!(learn.midi_learn_state(), MidiLearnState::Idle);
    assert_eq!(learn.target_for_cc(20), Some(SynthParam::Osc1Pan));
    // a custom mapping overrides the default routing
    learn.start_midi_learn(SynthParam::MasterVolume);
    learn.on_control_change(73);
    assert_eq!(learn.target_for_cc(73), Some(SynthParam::MasterVolume));
    assert_eq!(
        learn.custom_cc_mappings(),
        vec![
            CcMapping { cc: 20, param: SynthParam::Osc1Pan },
            CcMapping { cc: 73, param: SynthParam::MasterVolume },
        ]
    );
    learn.clear_cc_mappings();
    assert!(learn.custom_cc_mappings().is_empty());
    assert_eq!(learn.target_for_cc(73), Some(SynthParam::Attack));
}

#[test]
fn midi_learn_cancel_and_loaded_mappings() {
    let loaded = vec![
        CcMapping { cc: 9, param: SynthParam::Decay },
        CcMapping { cc: 3, param: SynthParam::Sustain },
        CcMapping { cc: 9, param: SynthParam::Release },
    ];
    let mut learn = MidiLearn::new(&loaded);
    assert_eq!(
        learn.custom_cc_mappings(),
        vec![CcMapping { cc: 3, param: SynthParam::Sustain }, CcMapping { cc: 9, param: SynthParam::Release }]
    );
    learn.start_midi_learn(SynthParam::Attack);
    learn.cancel_midi_learn();
    assert_eq!(learn.on_control_change(50), None);
    assert_eq!(learn.target_for_cc(50), None);
}

#[test]
fn error_descriptions() {
    assert_eq!(AudioError::NoDevice.describe(), "No audio output device found");
    assert_eq!(AudioError::NoConfig.describe(), "No supported audio config found");
    assert_eq!(AudioError::StreamError("x".into()).describe(), "Audio stream error: x");
    assert_eq!(PresetError::Io("gone".into()).describe(), "IO error: gone");
    assert_eq!(PresetError::Serialization("a".into()).describe(), "Serialization error: a");
    assert_eq!(PresetError::Deserialization("b".into()).describe(), "Deserialization error: b");
}

#[test]
fn plugin_shared_state_round_trips_values() {
    let s = PluginSharedState::new();
    assert_eq!(s.voice_count(), 0);
    assert_eq!(s.max_voices(), 0);
    s.set_voice_count(3);
    s.set_max_voices(8);
    let other = s.clone();
    assert_eq!(other.voice_count(), 3);
    assert_eq!(other.max_voices(), 8);
    let arc = s.cpu_load_arc();
    arc.store(42.5f32.to_bits(), std::sync::atomic::Ordering::Relaxed);
    assert_eq!(f32::from_bits(s.cpu_load_arc().load(std::sync::atomic::Ordering::Relaxed)), 42.5);
}


#[test]
fn cc_activity_is_listed_by_cc_number() {
    let entries = vec![(74, 10), (1, 127), (200, 3), (7, 64)];
    assert_eq!(cc_activity_sorted(&entries), vec![(1, 127), (7, 64), (74, 10), (200, 3)]);
    assert_eq!(cc_activity_sorted(&vec![]), vec![]);
    // entries for the same CC keep their order
    assert_eq!(cc_activity_sorted(&vec![(5, 2), (3, 0), (5, 1)]), vec![(3, 0), (5, 2), (5, 1)]);
}
