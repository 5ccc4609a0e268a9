use rust_in_synth::envelope::EnvelopeKind;
use rust_in_synth::envelope::EnvelopeState::{Attack, Decay, Idle, Release, Sustain};

#[test]
fn adsr_stage_sequence() {
    let k = EnvelopeKind::Adsr;
    let mut s = Idle.on_trigger();
    assert_eq!(s, Attack);
    s = s.advance(k, false);
    assert_eq!(s, Attack);
    s = s.advance(k, true);
    assert_eq!(s, Decay);
    s = s.advance(k, false);
    assert_eq!(s, Decay);
    s = s.advance(k, true);
    assert_eq!(s, Sustain);
    s = s.advance(k, true);
    assert_eq!(s, Sustain);
    s = s.on_release();
    assert_eq!(s, Release);
    s = s.advance(k, false);
    assert_eq!(s, Release);
    s = s.advance(k, true);
    assert_eq!(s, Idle);
    assert!(s.is_finished());
}

#[test]
fn ar_stage_sequence() {
    let k = EnvelopeKind::AttackRelease;
    assert_eq!(Attack.advance(k, true), Sustain);
    assert_eq!(Decay.advance(k, false), Sustain);
    assert_eq!(Release.advance(k, true), Idle);
    assert_eq!(Idle.advance(k, true), Idle);
}

#[test]
fn release_of_idle_envelope_stays_idle() {
    assert_eq!(Idle.on_release(), Idle);
    assert_eq!(Attack.on_release(), Release);
    assert_eq!(Decay.on_release(), Release);
    assert_eq!(Release.on_release(), Release);
    assert!(!Release.is_finished());
    assert_eq!(Release.on_trigger(), Attack);
}
