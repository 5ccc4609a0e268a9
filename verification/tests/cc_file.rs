use std::collections::HashMap;

use rust_in_synth::cc_file::{cc_mappings_from_json, cc_mappings_to_json, mappings_of_names};
use rust_in_synth::gui::CcMapping;
use rust_in_synth::params::SynthParam;

#[test]
fn reads_names_in_cc_order_and_skips_unknown_names() {
    let text = r#"{ "74": "Filter Cutoff", "5": "Portamento Time", "20": "Not A Param", "73": "Attack" }"#;
    let mappings = cc_mappings_from_json(text).unwrap();
    assert_eq!(
        mappings,
        vec![
            CcMapping { cc: 5, param: SynthParam::PortamentoTime },
            CcMapping { cc: 73, param: SynthParam::Attack },
            CcMapping { cc: 74, param: SynthParam::FilterCutoff },
        ]
    );
}

#[test]
fn rejects_text_that_is_no_cc_object() {
    assert_eq!(cc_mappings_from_json("not json"), None);
    assert_eq!(cc_mappings_from_json("[1, 2]"), None);
    assert_eq!(cc_mappings_from_json(r#"{ "300": "Attack" }"#), None);
    assert_eq!(cc_mappings_from_json(r#"{ "7": 3 }"#), None);
    assert_eq!(cc_mappings_from_json("{}"), Some(vec![]));
}

#[test]
fn written_text_reads_back_as_the_same_mappings() {
    let mappings = vec![
        CcMapping { cc: 110, param: SynthParam::Osc2Cents },
        CcMapping { cc: 1, param: SynthParam::StereoWidth },
        CcMapping { cc: 74, param: SynthParam::LfoRate },
    ];
    let text = cc_mappings_to_json(&mappings).unwrap();
    assert!(text.contains("\"Stereo Width\""));
    let back = cc_mappings_from_json(&text).unwrap();
    assert_eq!(
        back,
        vec![
            CcMapping { cc: 1, param: SynthParam::StereoWidth },
            CcMapping { cc: 74, param: SynthParam::LfoRate },
            CcMapping { cc: 110, param: SynthParam::Osc2Cents },
        ]
    );
}

#[test]
fn later_entry_for_a_cc_wins_when_writing() {
    let mappings = vec![
        CcMapping { cc: 9, param: SynthParam::Decay },
        CcMapping { cc: 9, param: SynthParam::Sustain },
    ];
    let text = cc_mappings_to_json(&mappings).unwrap();
    assert_eq!(cc_mappings_from_json(&text).unwrap(), vec![CcMapping { cc: 9, param: SynthParam::Sustain }]);
    assert!(!text.contains("Decay"));
}

#[test]
fn names_map_lists_known_parameters_in_cc_order() {
    let mut names = HashMap::new();
    names.insert(90u8, String::from("OSC3 Phase"));
    names.insert(3u8, String::from("Master Volume"));
    names.insert(50u8, String::from("master volume"));
    assert_eq!(
        mappings_of_names(&names),
        vec![
            CcMapping { cc: 3, param: SynthParam::MasterVolume },
            CcMapping { cc: 90, param: SynthParam::Osc3Phase },
        ]
    );
    assert_eq!(mappings_of_names(&HashMap::new()), vec![]);
}
