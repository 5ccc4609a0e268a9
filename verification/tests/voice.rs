use rust_in_synth::envelope::EnvelopeState;
use rust_in_synth::envelope::EnvelopeState::{Attack, Decay, Idle, Release, Sustain};
use rust_in_synth::voice::{
    allocate_voice_index, find_voice_with_note, KeyStack, MonoAction, NoteRouter, PolyphonyMode, VoiceCommand, VoiceStatus,
};

fn v(note: Option<u8>, stage: EnvelopeState) -> VoiceStatus {
    VoiceStatus { note, stage }
}

#[test]
fn allocation_prefers_idle_then_releasing_then_first() {
    assert_eq!(allocate_voice_index(&[]), None);
    assert_eq!(allocate_voice_index(&[v(Some(60), Sustain), v(None, Idle), v(None, Idle)]), Some(1));
    assert_eq!(allocate_voice_index(&[v(Some(60), Sustain), v(Some(61), Release), v(Some(62), Release)]), Some(1));
    assert_eq!(allocate_voice_index(&[v(Some(60), Attack), v(Some(61), Decay), v(Some(62), Sustain)]), Some(0));
    assert_eq!(allocate_voice_index(&[v(Some(60), Release), v(None, Idle)]), Some(1));
}

#[test]
fn find_voice_only_matches_sounding_voices() {
    let voices = [v(Some(60), Idle), v(Some(62), Sustain), v(Some(60), Release), v(Some(60), Attack)];
    assert_eq!(find_voice_with_note(&voices, 60), Some(2));
    assert_eq!(find_voice_with_note(&voices, 62), Some(1));
    assert_eq!(find_voice_with_note(&voices, 64), None);
    assert!(voices[2].is_releasing());
    assert!(!voices[0].is_active());
}

#[test]
fn key_stack_returns_to_previous_note() {
    let mut ks = KeyStack::new();
    assert_eq!(ks.press(60, 100), MonoAction::Play { note: 60, velocity: 100 });
    assert_eq!(ks.press(64, 90), MonoAction::Play { note: 64, velocity: 90 });
    assert_eq!(ks.press(67, 80), MonoAction::Play { note: 67, velocity: 80 });
    assert_eq!(ks.top(), Some((67, 80)));
    // releasing a non-sounding key changes nothing audible
    assert_eq!(ks.release(64), MonoAction::Hold);
    // releasing the sounding key returns to the previous held key
    assert_eq!(ks.release(67), MonoAction::Play { note: 60, velocity: 100 });
    assert_eq!(ks.release(60), MonoAction::Release { note: 60 });
    assert_eq!(ks.top(), None);
    assert_eq!(ks.release(60), MonoAction::Hold);
}

#[test]
fn key_stack_repress_moves_note_to_top() {
    let mut ks = KeyStack::new();
    ks.press(60, 100);
    ks.press(62, 100);
    ks.press(60, 50);
    assert_eq!(ks.top(), Some((60, 50)));
    assert_eq!(ks.release(60), MonoAction::Play { note: 62, velocity: 100 });
    assert_eq!(ks.release(62), MonoAction::Release { note: 62 });
    ks.press(1, 1);
    ks.clear();
    assert_eq!(ks.top(), None);
}

#[test]
fn polyphony_defaults_to_mono() {
    assert_eq!(PolyphonyMode::default(), PolyphonyMode::Mono);
    assert_ne!(PolyphonyMode::Mono, PolyphonyMode::Poly);
}

#[test]
fn router_in_mono_mode_follows_the_key_stack_on_voice_zero() {
    let voices = [v(None, Idle)];
    let mut r = NoteRouter::new();
    assert_eq!(r.mode(), PolyphonyMode::Mono);
    assert_eq!(r.note_on(&voices, 60, 100), VoiceCommand::Start { voice: 0, note: 60, velocity: 100 });
    assert_eq!(r.note_on(&voices, 64, 90), VoiceCommand::Start { voice: 0, note: 64, velocity: 90 });
    // releasing the held but silent key changes nothing
    assert_eq!(r.note_off(&voices, 60), VoiceCommand::Nothing);
    // releasing the sounding key with nothing else held stops the voice
    assert_eq!(r.note_off(&voices, 64), VoiceCommand::Stop { voice: 0 });
    // with no voice at all nothing can sound
    assert_eq!(r.note_on(&[], 50, 1), VoiceCommand::Nothing);
}

#[test]
fn router_in_mono_mode_returns_to_previous_key() {
    let voices = [v(Some(67), Sustain)];
    let mut r = NoteRouter::new();
    r.note_on(&voices, 60, 100);
    r.note_on(&voices, 67, 80);
    assert_eq!(r.note_off(&voices, 67), VoiceCommand::Start { voice: 0, note: 60, velocity: 100 });
}

#[test]
fn router_in_poly_mode_allocates_and_finds_voices() {
    let mut r = NoteRouter::new();
    assert!(r.set_mode(PolyphonyMode::Poly));
    assert!(!r.set_mode(PolyphonyMode::Poly));
    let voices = [v(Some(60), Sustain), v(None, Idle), v(Some(62), Release)];
    assert_eq!(r.note_on(&voices, 64, 70), VoiceCommand::Start { voice: 1, note: 64, velocity: 70 });
    let busy = [v(Some(60), Sustain), v(Some(64), Attack), v(Some(62), Release)];
    assert_eq!(r.note_on(&busy, 65, 70), VoiceCommand::Start { voice: 2, note: 65, velocity: 70 });
    assert_eq!(r.note_off(&busy, 64), VoiceCommand::Stop { voice: 1 });
    assert_eq!(r.note_off(&busy, 70), VoiceCommand::Nothing);
    assert_eq!(r.note_on(&[], 64, 70), VoiceCommand::Nothing);
}

#[test]
fn switching_mode_forgets_held_keys() {
    let voices = [v(None, Idle)];
    let mut r = NoteRouter::new();
    r.note_on(&voices, 60, 100);
    assert!(r.set_mode(PolyphonyMode::Poly));
    assert!(r.set_mode(PolyphonyMode::Mono));
    // 60 is no longer held: releasing it is not the sounding key
    assert_eq!(r.note_off(&voices, 60), VoiceCommand::Nothing);
}
