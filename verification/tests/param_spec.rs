use rust_in_synth::param_spec::{index, param_at_index, param_specs, spec, ParamCurve, NUM_PARAMS};
use rust_in_synth::params::SynthParam;

#[test]
fn every_param_has_spec() {
    for &p in SynthParam::all() {
        let s = spec(p);
        assert_eq!(s.param, p);
    }
    assert_eq!(param_specs().len(), SynthParam::all().len());
}

#[test]
fn defaults_within_range() {
    for s in param_specs().iter() {
        assert!(
            s.default >= s.min && s.default <= s.max,
            "{:?} default {} outside [{}, {}]",
            s.param,
            s.default,
            s.min,
            s.max
        );
    }
}

#[test]
fn param_at_index_round_trip() {
    for &p in SynthParam::all() {
        assert_eq!(param_at_index(index(p)), Some(p));
    }
}

#[test]
fn indices_cover_zero_to_num_params() {
    let mut seen = vec![false; NUM_PARAMS];
    for &p in SynthParam::all() {
        let i = index(p);
        assert!(i < NUM_PARAMS);
        assert!(!seen[i]);
        seen[i] = true;
    }
    assert!(seen.iter().all(|&b| b));
    assert_eq!(param_at_index(NUM_PARAMS), None);
    assert_eq!(param_at_index(usize::MAX), None);
    assert_eq!(index(SynthParam::PortamentoTime), 34);
    assert_eq!(param_at_index(29), Some(SynthParam::Osc1Pan));
}

#[test]
fn spec_table_values() {
    let cutoff = spec(SynthParam::FilterCutoff);
    assert_eq!((cutoff.min, cutoff.max, cutoff.default), (20_000, 20_000_000, 20_000_000));
    assert_eq!(cutoff.curve, ParamCurve::Logarithmic);
    assert_eq!(cutoff.unit, " Hz");
    let port = spec(SynthParam::PortamentoTime);
    assert_eq!(port.curve, ParamCurve::LogarithmicWithZero { log_min: 5 });
    assert_eq!(port.unit, " s");
    let semis = spec(SynthParam::Osc3Semitones);
    assert!(semis.stepped);
    assert_eq!(semis.default, -12_000);
}

#[test]
fn spec_table_is_well_formed() {
    for s in param_specs().iter() {
        assert!(s.min < s.max);
        match s.curve {
            ParamCurve::Logarithmic => assert!(s.min > 0),
            ParamCurve::LogarithmicWithZero { log_min } => {
                assert_eq!(s.min, 0);
                assert!(log_min > 0 && log_min < s.max);
            }
            ParamCurve::Linear => {}
        }
        if s.stepped {
            assert_eq!(s.min % 1000, 0);
            assert_eq!(s.max % 1000, 0);
            assert_eq!(s.default % 1000, 0);
        }
    }
}
