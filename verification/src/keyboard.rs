//! QWERTY keyboard → MIDI note mapping and the monophonic keyboard logic.
//!
//! Keys are given as plain values (a `Key` and whether it was pressed,
//! released or repeated); reading them from the terminal is left to the
//! caller.

use std::collections::HashMap;
use vstd::prelude::*;

use crate::event::WaveformType;

verus! {

broadcast use vstd::std_specs::hash::group_hash_axioms;

/// Note of a key in the default layout (base octave 4).
///
/// Lower row (ZXCV...): C4 to C5; upper row (QWER...): C5 to C6, with the
/// sharps on the row above each.
pub open spec fn default_key_note(key: char) -> Option<u8> {
    if key == 'z' { Some(60u8) }
    else if key == 's' { Some(61u8) }
    else if key == 'x' { Some(62u8) }
    else if key == 'd' { Some(63u8) }
    else if key == 'c' { Some(64u8) }
    else if key == 'v' { Some(65u8) }
    else if key == 'g' { Some(66u8) }
    else if key == 'b' { Some(67u8) }
    else if key == 'h' { Some(68u8) }
    else if key == 'n' { Some(69u8) }
    else if key == 'j' { Some(70u8) }
    else if key == 'm' { Some(71u8) }
    else if key == ',' { Some(72u8) }
    else if key == 'q' { Some(72u8) }
    else if key == '2' { Some(73u8) }
    else if key == 'w' { Some(74u8) }
    else if key == '3' { Some(75u8) }
    else if key == 'e' { Some(76u8) }
    else if key == 'r' { Some(77u8) }
    else if key == '5' { Some(78u8) }
    else if key == 't' { Some(79u8) }
    else if key == '6' { Some(80u8) }
    else if key == 'y' { Some(81u8) }
    else if key == '7' { Some(82u8) }
    else if key == 'u' { Some(83u8) }
    else if key == 'i' { Some(84u8) }
    else { None }
}

/// A default-layout note moved to base octave `octave`, clamped to 0-127.
pub open spec fn shifted_note(note: u8, octave: int) -> u8 {
    let n = note + (octave - 4) * 12;
    if n < 0 { 0 } else if n > 127 { 127 } else { n as u8 }
}

/// Note of a key with the mapping's base octave at `octave`.
pub open spec fn key_note(key: char, octave: int) -> Option<u8> {
    match default_key_note(key) {
        Some(n) => Some(shifted_note(n, octave)),
        None => None,
    }
}

/// The key → note map at base octave `octave`, keyed by the key's
/// character code.
pub open spec fn layout_map(octave: int) -> Map<u32, u8> {
    map![
        122u32 => shifted_note(60u8, octave),
        115u32 => shifted_note(61u8, octave),
        120u32 => shifted_note(62u8, octave),
        100u32 => shifted_note(63u8, octave),
        99u32 => shifted_note(64u8, octave),
        118u32 => shifted_note(65u8, octave),
        103u32 => shifted_note(66u8, octave),
        98u32 => shifted_note(67u8, octave),
        104u32 => shifted_note(68u8, octave),
        110u32 => shifted_note(69u8, octave),
        106u32 => shifted_note(70u8, octave),
        109u32 => shifted_note(71u8, octave),
        44u32 => shifted_note(72u8, octave),
        113u32 => shifted_note(72u8, octave),
        50u32 => shifted_note(73u8, octave),
        119u32 => shifted_note(74u8, octave),
        51u32 => shifted_note(75u8, octave),
        101u32 => shifted_note(76u8, octave),
        114u32 => shifted_note(77u8, octave),
        53u32 => shifted_note(78u8, octave),
        116u32 => shifted_note(79u8, octave),
        54u32 => shifted_note(80u8, octave),
        121u32 => shifted_note(81u8, octave),
        55u32 => shifted_note(82u8, octave),
        117u32 => shifted_note(83u8, octave),
        105u32 => shifted_note(84u8, octave)
    ]
}

/// A default-layout note moved to base octave `octave` (0-8), clamped to
/// 0-127.
fn shift_note(note: u8, octave: i8) -> (r: u8)
    requires
        0 <= octave <= 8,
    ensures
        r == shifted_note(note, octave as int),
{
    let offset: i16 = (octave as i16 - 4) * 12;
    let shifted: i16 = note as i16 + offset;
    if shifted < 0 { 0 } else if shifted > 127 { 127 } else { shifted as u8 }
}

/// The key → note map of the layout at base octave `octave`.
#[verifier::rlimit(40)]
fn build_layout(octave: i8) -> (r: HashMap<u32, u8>)
    requires
        0 <= octave <= 8,
    ensures
        r@ == layout_map(octave as int),
{
    let mut m: HashMap<u32, u8> = HashMap::new();
    // Lower row from C4 = MIDI 60, upper row from C5 = MIDI 72
    m.insert(122, shift_note(60, octave)); // 'z'
    m.insert(115, shift_note(61, octave)); // 's'
    m.insert(120, shift_note(62, octave)); // 'x'
    m.insert(100, shift_note(63, octave)); // 'd'
    m.insert(99, shift_note(64, octave)); // 'c'
    m.insert(118, shift_note(65, octave)); // 'v'
    m.insert(103, shift_note(66, octave)); // 'g'
    m.insert(98, shift_note(67, octave)); // 'b'
    m.insert(104, shift_note(68, octave)); // 'h'
    m.insert(110, shift_note(69, octave)); // 'n'
    m.insert(106, shift_note(70, octave)); // 'j'
    m.insert(109, shift_note(71, octave)); // 'm'
    m.insert(44, shift_note(72, octave)); // ','
    m.insert(113, shift_note(72, octave)); // 'q'
    m.insert(50, shift_note(73, octave)); // '2'
    m.insert(119, shift_note(74, octave)); // 'w'
    m.insert(51, shift_note(75, octave)); // '3'
    m.insert(101, shift_note(76, octave)); // 'e'
    m.insert(114, shift_note(77, octave)); // 'r'
    m.insert(53, shift_note(78, octave)); // '5'
    m.insert(116, shift_note(79, octave)); // 't'
    m.insert(54, shift_note(80, octave)); // '6'
    m.insert(121, shift_note(81, octave)); // 'y'
    m.insert(55, shift_note(82, octave)); // '7'
    m.insert(117, shift_note(83, octave)); // 'u'
    m.insert(105, shift_note(84, octave)); // 'i'
    assert(m@ =~= layout_map(octave as int));
    m
}

/// The layout map gives each key the note of `key_note`.
proof fn lemma_layout_map(key: char, octave: int)
    ensures
        key_note(key, octave) == if layout_map(octave).contains_key(key as u32) {
            Some(layout_map(octave)[key as u32])
        } else {
            None
        },
{
}

/// Base octave after shifting up: one higher, at most 8.
pub open spec fn raised_octave(octave: int) -> int {
    if octave < 8 { octave + 1 } else { octave }
}

/// Base octave after shifting down: one lower, at least 0.
pub open spec fn lowered_octave(octave: int) -> int {
    if octave > 0 { octave - 1 } else { octave }
}

/// Shifting the octave up and then down (or down and then up) returns to
/// the starting octave unless the first shift hit the end of the range.
pub proof fn lemma_octave_shifts_undo(octave: int)
    requires
        0 <= octave <= 8,
    ensures
        octave < 8 ==> lowered_octave(raised_octave(octave)) == octave,
        octave > 0 ==> raised_octave(lowered_octave(octave)) == octave,
        0 <= raised_octave(octave) <= 8,
        0 <= lowered_octave(octave) <= 8,
{
}

/// Maps QWERTY keyboard keys to MIDI note numbers
/// Layout mimics a piano keyboard across two rows
pub struct KeyboardMapping {
    /// Note of each key, keyed by the key's character code.
    key_to_note: HashMap<u32, u8>,
    base_octave: i8,
}

impl View for KeyboardMapping {
    type V = int;

    /// The base octave (4 = the default layout).
    closed spec fn view(&self) -> int {
        self.base_octave as int
    }
}

impl KeyboardMapping {
    /// The base octave stays within 0-8 and the key map is the layout at
    /// that octave.
    pub closed spec fn wf(&self) -> bool {
        &&& 0 <= self.base_octave <= 8
        &&& self.key_to_note@ == layout_map(self.base_octave as int)
    }

    pub fn new() -> (r: Self)
        ensures
            r.wf(),
            r@ == 4,
    {
        Self { key_to_note: build_layout(4), base_octave: 4 }  // Middle C octave
    }

    /// Get the MIDI note for a key, if mapped
    pub fn get_note(&self, key: char) -> (r: Option<u8>)
        requires
            self.wf(),
        ensures
            r == key_note(key, self@),
    {
        proof { lemma_layout_map(key, self@); }
        match self.key_to_note.get(&(key as u32)) {
            Some(n) => Some(*n),
            None => None,
        }
    }

    /// Shift the octave up
    pub fn octave_up(&mut self)
        requires
            old(self).wf(),
        ensures
            final(self).wf(),
            final(self)@ == raised_octave(old(self)@),
    {
        if self.base_octave < 8 {
            self.base_octave = self.base_octave + 1;
            self.key_to_note = build_layout(self.base_octave);
        }
    }

    /// Shift the octave down
    pub fn octave_down(&mut self)
        requires
            old(self).wf(),
        ensures
            final(self).wf(),
            final(self)@ == lowered_octave(old(self)@),
    {
        if self.base_octave > 0 {
            self.base_octave = self.base_octave - 1;
            self.key_to_note = build_layout(self.base_octave);
        }
    }
}

impl Default for KeyboardMapping {
    fn default() -> (r: Self)
        ensures
            r.wf(),
            r@ == 4,
    {
        Self::new()
    }
}

/// Moving the base octave by one moves every mapped note by exactly an
/// octave (twelve semitones) as long as no clamping happens; in the default
/// octave the layout is unshifted.
pub proof fn lemma_octave_shift(key: char, octave: int)
    requires
        0 <= octave < 8,
    ensures
        key_note(key, 4) == default_key_note(key),
        default_key_note(key) matches Some(n) ==> (n + (octave + 1 - 4) * 12 <= 127
            ==> key_note(key, octave + 1) == Some((shifted_note(n, octave) + 12) as u8)),
{
}

/// A key as seen by the synth.
#[derive(Debug, Clone, Copy, PartialEq, Eq, Structural)]
pub enum Key {
    Char(char),
    Up,
    Down,
    Esc,
    /// Function key F1, F2, ...
    F(u8),
    Other,
}

/// What happened to a key.
#[derive(Debug, Clone, Copy, PartialEq, Eq, Structural)]
pub enum KeyAction {
    Press,
    Release,
    Repeat,
}

/// A note command produced by the keyboard.
#[derive(Debug, Clone, Copy, PartialEq, Eq, Structural)]
pub enum NoteCommand {
    On(u8),
    Off(u8),
}

/// Events that can come from keyboard input
#[derive(Debug)]
pub enum KeyboardEvent {
    Note(NoteCommand),
    Notes(Vec<NoteCommand>),
    OctaveUp,
    OctaveDown,
    WaveformChange(WaveformType),
    Quit,
}

/// Commands for pressing `note` while `held` is sounding: the held note is
/// released first when it is a different note (monophonic playing).
pub open spec fn press_commands(held: Option<u8>, note: u8) -> Seq<NoteCommand> {
    match held {
        Some(p) => if p != note { seq![NoteCommand::Off(p), NoteCommand::On(note)] } else { seq![NoteCommand::On(note)] },
        None => seq![NoteCommand::On(note)],
    }
}

/// Waveform selected by a function key (F1-F4).
pub open spec fn function_key_waveform(n: u8) -> Option<WaveformType> {
    if n == 1 { Some(WaveformType::Sine) }
    else if n == 2 { Some(WaveformType::Square) }
    else if n == 3 { Some(WaveformType::Saw) }
    else if n == 4 { Some(WaveformType::Triangle) }
    else { None }
}

/// Whether a key press is a control key (octave, quit, waveform).
pub open spec fn is_control_press(key: Key, action: KeyAction) -> bool {
    action == KeyAction::Press && match key {
        Key::Up | Key::Down | Key::Esc => true,
        Key::F(n) => function_key_waveform(n) is Some,
        _ => false,
    }
}

/// Note a key plays at base octave `octave`, if it is a note key.
pub open spec fn note_of_key(key: Key, octave: int) -> Option<u8> {
    match key {
        Key::Char(c) => key_note(c, octave),
        _ => None,
    }
}

/// Handles keyboard input and converts it to note events
pub struct KeyboardInput {
    mapping: KeyboardMapping,
    current_note: Option<u8>,
}

impl KeyboardInput {
    /// Base octave of the key mapping.
    pub closed spec fn octave(&self) -> int {
        self.mapping@
    }

    /// The note currently held (monophonic).
    pub closed spec fn held_note(&self) -> Option<u8> {
        self.current_note
    }

    pub closed spec fn wf(&self) -> bool {
        self.mapping.wf()
    }

    pub fn new() -> (r: Self)
        ensures
            r.wf(),
            r.octave() == 4,
            r.held_note() is None,
    {
        Self { mapping: KeyboardMapping::new(), current_note: None }
    }

    /// The note currently held, if any.
    pub fn current_note(&self) -> (r: Option<u8>)
        ensures
            r == self.held_note(),
    {
        self.current_note
    }

    /// React to one key event. Control keys act on press only; note keys
    /// play monophonically: pressing a note releases the previously held
    /// different note, releasing only stops the note that is held.
    pub fn handle_key(&mut self, key: Key, action: KeyAction) -> (r: Option<KeyboardEvent>)
        requires
            old(self).wf(),
        ensures
            final(self).wf(),
            action == KeyAction::Press && key == Key::Up ==> {
                &&& r matches Some(KeyboardEvent::OctaveUp)
                &&& final(self).octave() == raised_octave(old(self).octave())
                &&& final(self).held_note() == old(self).held_note()
            },
            action == KeyAction::Press && key == Key::Down ==> {
                &&& r matches Some(KeyboardEvent::OctaveDown)
                &&& final(self).octave() == lowered_octave(old(self).octave())
                &&& final(self).held_note() == old(self).held_note()
            },
            action == KeyAction::Press && key == Key::Esc ==> {
                &&& r matches Some(KeyboardEvent::Quit)
                &&& final(self).octave() == old(self).octave()
                &&& final(self).held_note() == old(self).held_note()
            },
            action == KeyAction::Press ==> (key matches Key::F(n) ==> match function_key_waveform(n) {
                Some(w) => {
                    &&& (r matches Some(KeyboardEvent::WaveformChange(w2)) && w2 == w)
                    &&& final(self).octave() == old(self).octave()
                    &&& final(self).held_note() == old(self).held_note()
                },
                None => {
                    &&& r is None
                    &&& final(self).octave() == old(self).octave()
                    &&& final(self).held_note() == old(self).held_note()
                },
            }),
            !is_control_press(key, action) ==> final(self).octave() == old(self).octave(),
            !is_control_press(key, action) ==> match note_of_key(key, old(self).octave()) {
                Some(n) => match action {
                    KeyAction::Press => {
                        &&& (r matches Some(KeyboardEvent::Notes(v)) && v@ == press_commands(old(self).held_note(), n))
                        &&& final(self).held_note() == Some(n)
                    },
                    KeyAction::Release => if old(self).held_note() == Some(n) {
                        &&& (r matches Some(KeyboardEvent::Note(c)) && c == NoteCommand::Off(n))
                        &&& final(self).held_note() is None
                    } else {
                        &&& r is None
                        &&& final(self).held_note() == old(self).held_note()
                    },
                    KeyAction::Repeat => {
                        &&& r is None
                        &&& final(self).held_note() == old(self).held_note()
                    },
                },
                None => {
                    &&& r is None
                    &&& final(self).held_note() == old(self).held_note()
                },
            },
    {
        // Handle control keys
        if action == KeyAction::Press {
            match key {
                Key::Up => {
                    self.mapping.octave_up();
                    return Some(KeyboardEvent::OctaveUp);
                },
                Key::Down => {
                    self.mapping.octave_down();
                    return Some(KeyboardEvent::OctaveDown);
                },
                Key::Esc => {
                    return Some(KeyboardEvent::Quit);
                },
                // Waveform selection: F1-F4
                Key::F(1) => {
                    return Some(KeyboardEvent::WaveformChange(WaveformType::Sine));
                },
                Key::F(2) => {
                    return Some(KeyboardEvent::WaveformChange(WaveformType::Square));
                },
                Key::F(3) => {
                    return Some(KeyboardEvent::WaveformChange(WaveformType::Saw));
                },
                Key::F(4) => {
                    return Some(KeyboardEvent::WaveformChange(WaveformType::Triangle));
                },
                _ => {},
            }
        }
        // Handle note keys
        let note = match key {
            Key::Char(c) => self.mapping.get_note(c),
            _ => None,
        };
        match note {
            Some(note) => {
                match action {
                    KeyAction::Press => {
                        // In monophonic mode, release previous note before playing new one
                        let mut events: Vec<NoteCommand> = Vec::new();
                        if let Some(prev_note) = self.current_note {
                            if prev_note != note {
                                events.push(NoteCommand::Off(prev_note));
                            }
                        }
                        self.current_note = Some(note);
                        events.push(NoteCommand::On(note));
                        proof {
                            assert(events@ =~= press_commands(old(self).current_note, note));
                        }
                        Some(KeyboardEvent::Notes(events))
                    },
                    KeyAction::Release => {
                        // Only release if this is the current note
                        if self.current_note == Some(note) {
                            self.current_note = None;
                            Some(KeyboardEvent::Note(NoteCommand::Off(note)))
                        } else {
                            None
                        }
                    },
                    KeyAction::Repeat => None,
                }
            },
            None => None,
        }
    }
}

impl Default for KeyboardInput {
    fn default() -> (r: Self)
        ensures
            r.wf(),
            r.octave() == 4,
            r.held_note() is None,
    {
        Self::new()
    }
}

/// The keyboard plays monophonically: the commands for a press always end by
/// starting the pressed note, and stop the previously held note exactly when
/// it is a different one, so at most one note sounds afterwards.
pub proof fn lemma_press_is_monophonic(held: Option<u8>, note: u8)
    ensures
        press_commands(held, note).last() == NoteCommand::On(note),
        press_commands(held, note).len() == 2 <==> (held matches Some(p) && p != note),
        press_commands(held, note).len() == 2 ==> press_commands(held, note)[0] == NoteCommand::Off(held->0),
{
}

/// The lower row of note keys, from C4 up one semitone per key to C5.
pub open spec fn lower_row_keys() -> Seq<char> {
    seq!['z', 's', 'x', 'd', 'c', 'v', 'g', 'b', 'h', 'n', 'j', 'm', ',']
}

/// The upper row of note keys, from C5 up one semitone per key to C6.
pub open spec fn upper_row_keys() -> Seq<char> {
    seq!['q', '2', 'w', '3', 'e', 'r', '5', 't', '6', 'y', '7', 'u', 'i']
}

/// The layout is chromatic: along the lower row each key plays one semitone
/// above the previous one, from C4 (60) to C5 (72), and along the upper row
/// from C5 (72) to C6 (84); so distinct keys of a row play distinct notes,
/// and no key outside the two rows plays anything.
pub proof fn lemma_layout_is_chromatic(key: char)
    ensures
        forall|i: int| 0 <= i < 13 ==> #[trigger] default_key_note(lower_row_keys()[i]) == Some((60 + i) as u8),
        forall|i: int| 0 <= i < 13 ==> #[trigger] default_key_note(upper_row_keys()[i]) == Some((72 + i) as u8),
        default_key_note(key) is Some <==> (lower_row_keys().contains(key) || upper_row_keys().contains(key)),
{
    let lo = lower_row_keys();
    let up = upper_row_keys();
    assert forall|i: int| 0 <= i < 13 implies #[trigger] default_key_note(lo[i]) == Some((60 + i) as u8) by {
        assert(lo[0] == 'z' && lo[1] == 's' && lo[2] == 'x' && lo[3] == 'd' && lo[4] == 'c' && lo[5] == 'v'
            && lo[6] == 'g' && lo[7] == 'b' && lo[8] == 'h' && lo[9] == 'n' && lo[10] == 'j' && lo[11] == 'm'
            && lo[12] == ',');
    }
    assert forall|i: int| 0 <= i < 13 implies #[trigger] default_key_note(up[i]) == Some((72 + i) as u8) by {
        assert(up[0] == 'q' && up[1] == '2' && up[2] == 'w' && up[3] == '3' && up[4] == 'e' && up[5] == 'r'
            && up[6] == '5' && up[7] == 't' && up[8] == '6' && up[9] == 'y' && up[10] == '7' && up[11] == 'u'
            && up[12] == 'i');
    }
    if default_key_note(key) is Some {
        if key == 'z' { assert(lo[0] == key); } else if key == 's' { assert(lo[1] == key); }
        else if key == 'x' { assert(lo[2] == key); } else if key == 'd' { assert(lo[3] == key); }
        else if key == 'c' { assert(lo[4] == key); } else if key == 'v' { assert(lo[5] == key); }
        else if key == 'g' { assert(lo[6] == key); } else if key == 'b' { assert(lo[7] == key); }
        else if key == 'h' { assert(lo[8] == key); } else if key == 'n' { assert(lo[9] == key); }
        else if key == 'j' { assert(lo[10] == key); } else if key == 'm' { assert(lo[11] == key); }
        else if key == ',' { assert(lo[12] == key); } else if key == 'q' { assert(up[0] == key); }
        else if key == '2' { assert(up[1] == key); } else if key == 'w' { assert(up[2] == key); }
        else if key == '3' { assert(up[3] == key); } else if key == 'e' { assert(up[4] == key); }
        else if key == 'r' { assert(up[5] == key); } else if key == '5' { assert(up[6] == key); }
        else if key == 't' { assert(up[7] == key); } else if key == '6' { assert(up[8] == key); }
        else if key == 'y' { assert(up[9] == key); } else if key == '7' { assert(up[10] == key); }
        else if key == 'u' { assert(up[11] == key); } else { assert(up[12] == key); }
    }
}

} // verus!
