use rust_in_synth::event::WaveformType;
use rust_in_synth::keyboard::{Key, KeyAction, KeyboardEvent, KeyboardInput, KeyboardMapping, NoteCommand};

#[test]
fn default_layout() {
    let m = KeyboardMapping::new();
    assert_eq!(m.get_note('z'), Some(60));
    assert_eq!(m.get_note('n'), Some(69));
    assert_eq!(m.get_note(','), Some(72));
    assert_eq!(m.get_note('q'), Some(72));
    assert_eq!(m.get_note('i'), Some(84));
    assert_eq!(m.get_note('a'), None);
    assert_eq!(m.get_note('Z'), None);
}

#[test]
fn octave_shift_moves_by_twelve_and_clamps() {
    let mut m = KeyboardMapping::default();
    m.octave_up();
    assert_eq!(m.get_note('z'), Some(72));
    m.octave_down();
    m.octave_down();
    assert_eq!(m.get_note('z'), Some(48));
    for _ in 0..10 {
        m.octave_down();
    }
    // base octave 0: C4 key -> 60 - 48 = 12
    assert_eq!(m.get_note('z'), Some(12));
    for _ in 0..20 {
        m.octave_up();
    }
    // base octave 8: 84 + 48 clamps to 127
    assert_eq!(m.get_note('i'), Some(127));
    assert_eq!(m.get_note('z'), Some(108));
}

fn notes(ev: Option<KeyboardEvent>) -> Vec<NoteCommand> {
    match ev {
        Some(KeyboardEvent::Notes(v)) => v,
        Some(KeyboardEvent::Note(c)) => vec![c],
        other => panic!("expected note events, got {:?}", other),
    }
}

#[test]
fn monophonic_press_and_release() {
    let mut kb = KeyboardInput::new();
    assert_eq!(notes(kb.handle_key(Key::Char('z'), KeyAction::Press)), vec![NoteCommand::On(60)]);
    assert_eq!(kb.current_note(), Some(60));
    // pressing another key releases the held one first
    assert_eq!(
        notes(kb.handle_key(Key::Char('x'), KeyAction::Press)),
        vec![NoteCommand::Off(60), NoteCommand::On(62)]
    );
    // releasing a key that is not held does nothing
    assert!(kb.handle_key(Key::Char('z'), KeyAction::Release).is_none());
    assert_eq!(kb.current_note(), Some(62));
    // repeats do nothing
    assert!(kb.handle_key(Key::Char('x'), KeyAction::Repeat).is_none());
    assert_eq!(notes(kb.handle_key(Key::Char('x'), KeyAction::Release)), vec![NoteCommand::Off(62)]);
    assert_eq!(kb.current_note(), None);
    // pressing the held note again does not release it
    kb.handle_key(Key::Char('c'), KeyAction::Press);
    assert_eq!(notes(kb.handle_key(Key::Char('c'), KeyAction::Press)), vec![NoteCommand::On(64)]);
}

#[test]
fn control_keys() {
    let mut kb = KeyboardInput::default();
    assert!(matches!(kb.handle_key(Key::Up, KeyAction::Press), Some(KeyboardEvent::OctaveUp)));
    assert_eq!(notes(kb.handle_key(Key::Char('z'), KeyAction::Press)), vec![NoteCommand::On(72)]);
    assert!(matches!(kb.handle_key(Key::Down, KeyAction::Press), Some(KeyboardEvent::OctaveDown)));
    assert!(matches!(kb.handle_key(Key::Esc, KeyAction::Press), Some(KeyboardEvent::Quit)));
    assert!(matches!(
        kb.handle_key(Key::F(3), KeyAction::Press),
        Some(KeyboardEvent::WaveformChange(WaveformType::Saw))
    ));
    assert!(matches!(
        kb.handle_key(Key::F(1), KeyAction::Press),
        Some(KeyboardEvent::WaveformChange(WaveformType::Sine))
    ));
    assert!(kb.handle_key(Key::F(5), KeyAction::Press).is_none());
    // control keys only act on press
    assert!(kb.handle_key(Key::Up, KeyAction::Release).is_none());
    assert!(kb.handle_key(Key::Esc, KeyAction::Release).is_none());
    assert!(kb.handle_key(Key::Other, KeyAction::Press).is_none());
}
