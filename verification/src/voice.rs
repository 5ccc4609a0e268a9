//! Voice allocation (polyphonic mode) and key stacking (monophonic mode).

use vstd::prelude::*;

use crate::envelope::EnvelopeState;

verus! {

/// How note events are spread over the voices: one voice with key stacking,
/// or several voices with voice stealing.
#[derive(Debug, Clone, Copy, PartialEq, Eq, Structural)]
pub enum PolyphonyMode {
    Mono,
    Poly,
}

impl Default for PolyphonyMode {
    fn default() -> (r: Self)
        ensures
            r == PolyphonyMode::Mono,
    {
        PolyphonyMode::Mono
    }
}

/// What the voice allocator needs to know about a voice: the note it was
/// last given and the stage of its amplitude envelope.
#[derive(Debug, Clone, Copy, PartialEq, Eq, Structural)]
pub struct VoiceStatus {
    pub note: Option<u8>,
    pub stage: EnvelopeState,
}

/// A voice is playing until its envelope has returned to idle.
pub open spec fn voice_active(v: VoiceStatus) -> bool {
    v.stage != EnvelopeState::Idle
}

/// A voice is releasing while its envelope is in the release stage.
pub open spec fn voice_releasing(v: VoiceStatus) -> bool {
    v.stage == EnvelopeState::Release
}

impl VoiceStatus {
    /// Check if this voice is currently playing
    pub fn is_active(&self) -> (r: bool)
        ensures
            r == voice_active(*self),
    {
        self.stage != EnvelopeState::Idle
    }

    /// Check if this voice is in release phase
    pub fn is_releasing(&self) -> (r: bool)
        ensures
            r == voice_releasing(*self),
    {
        self.stage == EnvelopeState::Release
    }
}

/// Voice `i` is the one to take a new note: the first idle voice if there
/// is one, else the first releasing voice, else voice 0 (voice stealing).
pub open spec fn is_allocation(voices: Seq<VoiceStatus>, i: int) -> bool {
    &&& 0 <= i < voices.len()
    &&& if exists|j: int| 0 <= j < voices.len() && !voice_active(#[trigger] voices[j]) {
        &&& !voice_active(voices[i])
        &&& forall|j: int| 0 <= j < i ==> voice_active(#[trigger] voices[j])
    } else if exists|j: int| 0 <= j < voices.len() && voice_releasing(#[trigger] voices[j]) {
        &&& voice_releasing(voices[i])
        &&& forall|j: int| 0 <= j < i ==> !voice_releasing(#[trigger] voices[j])
    } else {
        i == 0
    }
}

/// Voice `i` is the one that plays `note`: the first active voice that was
/// given it.
pub open spec fn is_note_holder(voices: Seq<VoiceStatus>, note: u8, i: int) -> bool {
    &&& 0 <= i < voices.len()
    &&& voices[i].note == Some(note)
    &&& voice_active(voices[i])
    &&& forall|j: int| 0 <= j < i ==> !(#[trigger] voices[j].note == Some(note) && voice_active(voices[j]))
}

/// No active voice plays `note`.
pub open spec fn no_note_holder(voices: Seq<VoiceStatus>, note: u8) -> bool {
    forall|j: int| 0 <= j < voices.len() ==> !(#[trigger] voices[j].note == Some(note) && voice_active(voices[j]))
}

/// Find a free voice or steal one: the first idle voice if there is one,
/// else the first releasing voice, else voice 0 (simple voice stealing);
/// `None` only when there are no voices at all.
pub fn allocate_voice_index(voices: &[VoiceStatus]) -> (r: Option<usize>)
    ensures
        r is None <==> voices@.len() == 0,
        r matches Some(i) ==> is_allocation(voices@, i as int),
{
    // First, try to find an inactive voice
    let mut i: usize = 0;
    while i < voices.len()
        invariant
            i <= voices@.len(),
            forall|j: int| 0 <= j < i ==> voice_active(#[trigger] voices@[j]),
        decreases voices@.len() - i,
    {
        if !voices[i].is_active() {
            return Some(i);
        }
        i = i + 1;
    }
    // Then, try to find a releasing voice
    let mut k: usize = 0;
    while k < voices.len()
        invariant
            k <= voices@.len(),
            forall|j: int| 0 <= j < voices@.len() ==> voice_active(#[trigger] voices@[j]),
            forall|j: int| 0 <= j < k ==> !voice_releasing(#[trigger] voices@[j]),
        decreases voices@.len() - k,
    {
        if voices[k].is_releasing() {
            return Some(k);
        }
        k = k + 1;
    }
    // Finally, steal the first voice (simple voice stealing)
    if voices.len() > 0 {
        Some(0)
    } else {
        None
    }
}

/// Find the voice playing a specific note: the first active voice that was
/// given `note`, if any.
pub fn find_voice_with_note(voices: &[VoiceStatus], note: u8) -> (r: Option<usize>)
    ensures
        match r {
            Some(i) => is_note_holder(voices@, note, i as int),
            None => no_note_holder(voices@, note),
        },
{
    let mut i: usize = 0;
    while i < voices.len()
        invariant
            i <= voices@.len(),
            forall|j: int| 0 <= j < i ==> !(#[trigger] voices@[j].note == Some(note) && voice_active(voices@[j])),
        decreases voices@.len() - i,
    {
        let v = voices[i];
        if v.note == Some(note) && v.is_active() {
            return Some(i);
        }
        i = i + 1;
    }
    None
}

// ============================================================================
// Monophonic key stacking
// ============================================================================

/// Whether a stack entry belongs to another note than `note`.
pub open spec fn other_note(note: u8) -> spec_fn((u8, u8)) -> bool {
    |e: (u8, u8)| e.0 != note
}

/// `keys` without any entry for `note`.
pub open spec fn without_note(keys: Seq<(u8, u8)>, note: u8) -> Seq<(u8, u8)> {
    keys.filter(other_note(note))
}

/// No note appears twice on the stack.
pub open spec fn notes_unique(keys: Seq<(u8, u8)>) -> bool {
    forall|i: int, j: int| 0 <= i < j < keys.len() ==> #[trigger] keys[i].0 != #[trigger] keys[j].0
}

/// What the monophonic voice has to do after a key change.
#[derive(Debug, Clone, Copy, PartialEq, Eq, Structural)]
pub enum MonoAction {
    /// Play (or glide to) this note with this MIDI velocity.
    Play { note: u8, velocity: u8 },
    /// The last held key was let go: release the sounding note.
    Release { note: u8 },
    /// Nothing audible changes.
    Hold,
}

/// Action after releasing `note` from `keys`.
pub open spec fn release_action(keys: Seq<(u8, u8)>, note: u8) -> MonoAction {
    if keys.len() > 0 && keys.last().0 == note {
        let rest = without_note(keys, note);
        if rest.len() > 0 {
            MonoAction::Play { note: rest.last().0, velocity: rest.last().1 }
        } else {
            MonoAction::Release { note }
        }
    } else {
        MonoAction::Hold
    }
}

/// Held keys of the monophonic mode, oldest first; the last one sounds.
pub struct KeyStack {
    keys: Vec<(u8, u8)>,
}

impl View for KeyStack {
    type V = Seq<(u8, u8)>;

    /// The held (note, velocity) pairs in press order.
    closed spec fn view(&self) -> Seq<(u8, u8)> {
        self.keys@
    }
}

fn remove_note(keys: &Vec<(u8, u8)>, note: u8) -> (r: Vec<(u8, u8)>)
    ensures
        r@ == without_note(keys@, note),
{
    let ghost pred = other_note(note);
    let mut out: Vec<(u8, u8)> = Vec::new();
    let mut i: usize = 0;
    while i < keys.len()
        invariant
            i <= keys@.len(),
            pred == other_note(note),
            out@ == keys@.take(i as int).filter(pred),
        decreases keys@.len() - i,
    {
        let e = keys[i];
        proof {
            reveal_with_fuel(Seq::<_>::filter, 1);
            assert(keys@.take(i + 1).drop_last() =~= keys@.take(i as int));
            assert(keys@.take(i + 1).last() == e);
            let t = keys@.take(i + 1);
            assert(t.filter(pred) == (if pred(e) { t.drop_last().filter(pred).push(e) } else { t.drop_last().filter(pred) }));
        }
        if e.0 != note {
            out.push(e);
        }
        i = i + 1;
    }
    assert(keys@.take(keys@.len() as int) =~= keys@);
    out
}

proof fn lemma_filter_keeps_unique(keys: Seq<(u8, u8)>, note: u8)
    requires
        notes_unique(keys),
    ensures
        notes_unique(without_note(keys, note)),
        forall|i: int| 0 <= i < without_note(keys, note).len() ==> #[trigger] without_note(keys, note)[i].0 != note,
        forall|i: int| 0 <= i < without_note(keys, note).len() ==> keys.contains(#[trigger] without_note(keys, note)[i]),
    decreases keys.len(),
{
    let pred = other_note(note);
    let f = without_note(keys, note);
    if keys.len() > 0 {
        let init = keys.drop_last();
        assert(notes_unique(init));
        lemma_filter_keeps_unique(init, note);
        reveal_with_fuel(Seq::<_>::filter, 1);
        assert(keys.filter(pred) == if pred(keys.last()) { init.filter(pred).push(keys.last()) } else { init.filter(pred) });
        let fi = without_note(init, note);
        assert forall|i: int| 0 <= i < fi.len() implies keys.contains(#[trigger] fi[i]) by {
            assert(init.contains(fi[i]));
            let k = choose|k: int| 0 <= k < init.len() && init[k] == fi[i];
            assert(keys[k] == fi[i]);
        }
        if pred(keys.last()) {
            assert forall|i: int| 0 <= i < fi.len() implies #[trigger] fi[i].0 != keys.last().0 by {
                let k = choose|k: int| 0 <= k < keys.len() && keys[k] == fi[i];
                assert(k != keys.len() - 1 || fi[i] == keys.last());
                if k == keys.len() - 1 {
                    let k2 = choose|k2: int| 0 <= k2 < init.len() && init[k2] == fi[i];
                    assert(keys[k2] == fi[i]);
                }
            }
            assert(keys.contains(keys.last())) by { assert(keys[keys.len() - 1] == keys.last()); }
        }
    } else {
        assert(f =~= Seq::<(u8, u8)>::empty()) by { reveal_with_fuel(Seq::<_>::filter, 1); }
    }
}

impl KeyStack {
    /// No note is held twice.
    pub closed spec fn wf(&self) -> bool {
        notes_unique(self.keys@)
    }

    pub fn new() -> (r: Self)
        ensures
            r.wf(),
            r@ == Seq::<(u8, u8)>::empty(),
    {
        KeyStack { keys: Vec::new() }
    }

    /// The sounding key (the most recently pressed key still held).
    pub fn top(&self) -> (r: Option<(u8, u8)>)
        ensures
            r == if self@.len() > 0 { Some(self@.last()) } else { None::<(u8, u8)> },
    {
        if self.keys.len() > 0 {
            Some(self.keys[self.keys.len() - 1])
        } else {
            None
        }
    }

    /// Note On: push (note, velocity) to the stack (a note already held
    /// moves to the top) and play it.
    pub fn press(&mut self, note: u8, velocity: u8) -> (r: MonoAction)
        requires
            old(self).wf(),
        ensures
            final(self).wf(),
            final(self)@ == without_note(old(self)@, note).push((note, velocity)),
            r == (MonoAction::Play { note, velocity }),
    {
        proof { lemma_filter_keeps_unique(self.keys@, note); }
        let mut keys = remove_note(&self.keys, note);
        keys.push((note, velocity));
        self.keys = keys;
        MonoAction::Play { note, velocity }
    }

    /// Note Off: remove the note from the stack. If it was the sounding note,
    /// return to the previous held note, or release when none is left.
    pub fn release(&mut self, note: u8) -> (r: MonoAction)
        requires
            old(self).wf(),
        ensures
            final(self).wf(),
            final(self)@ == without_note(old(self)@, note),
            r == release_action(old(self)@, note),
    {
        let was_top = self.keys.len() > 0 && self.keys[self.keys.len() - 1].0 == note;
        proof { lemma_filter_keeps_unique(self.keys@, note); }
        self.keys = remove_note(&self.keys, note);
        if was_top {
            if self.keys.len() > 0 {
                let (n, v) = self.keys[self.keys.len() - 1];
                MonoAction::Play { note: n, velocity: v }
            } else {
                MonoAction::Release { note }
            }
        } else {
            MonoAction::Hold
        }
    }

    /// Forget every held key.
    pub fn clear(&mut self)
        ensures
            final(self).wf(),
            final(self)@ == Seq::<(u8, u8)>::empty(),
    {
        self.keys = Vec::new();
    }
}

/// Filtering a stack by a predicate every entry satisfies leaves it unchanged.
proof fn lemma_without_absent_note(keys: Seq<(u8, u8)>, note: u8)
    requires
        forall|i: int| 0 <= i < keys.len() ==> #[trigger] keys[i].0 != note,
    ensures
        without_note(keys, note) == keys,
    decreases keys.len(),
{
    reveal_with_fuel(Seq::<_>::filter, 1);
    if keys.len() > 0 {
        let init = keys.drop_last();
        assert forall|i: int| 0 <= i < init.len() implies #[trigger] init[i].0 != note by {
            assert(init[i] == keys[i]);
        }
        lemma_without_absent_note(init, note);
        assert(init.push(keys.last()) =~= keys);
    }
}

/// Key stacking: pressing a key that is not held and letting it go again
/// leaves the stack as it was, and hands the voice back to the note that was
/// sounding before (or releases it when no other key is held).
pub proof fn lemma_press_then_release(keys: Seq<(u8, u8)>, note: u8, velocity: u8)
    requires
        forall|i: int| 0 <= i < keys.len() ==> #[trigger] keys[i].0 != note,
    ensures
        without_note(without_note(keys, note).push((note, velocity)), note) == keys,
        release_action(without_note(keys, note).push((note, velocity)), note) == if keys.len() > 0 {
            MonoAction::Play { note: keys.last().0, velocity: keys.last().1 }
        } else {
            MonoAction::Release { note }
        },
{
    lemma_without_absent_note(keys, note);
    let pushed = keys.push((note, velocity));
    reveal_with_fuel(Seq::<_>::filter, 1);
    assert(pushed.drop_last() =~= keys);
    assert(without_note(pushed, note) == without_note(keys, note));
}

/// The sounding key is always the most recently pressed key that is still
/// held: after a press it is the pressed key, and no note is ever held twice.
pub proof fn lemma_press_sounds_latest(keys: Seq<(u8, u8)>, note: u8, velocity: u8)
    requires
        notes_unique(keys),
    ensures
        without_note(keys, note).push((note, velocity)).last() == (note, velocity),
        notes_unique(without_note(keys, note).push((note, velocity))),
{
    lemma_filter_keeps_unique(keys, note);
    let f = without_note(keys, note);
    let p = f.push((note, velocity));
    assert forall|i: int, j: int| 0 <= i < j < p.len() implies #[trigger] p[i].0 != #[trigger] p[j].0 by {
        if j == p.len() - 1 {
            assert(p[i] == f[i]);
        } else {
            assert(p[i] == f[i] && p[j] == f[j]);
        }
    }
}

// ============================================================================
// Routing notes to voices
// ============================================================================

/// What one voice has to do after a note event.
#[derive(Debug, Clone, Copy, PartialEq, Eq, Structural)]
pub enum VoiceCommand {
    /// Start (or retrigger) voice `voice` on `note` with this MIDI velocity.
    Start { voice: usize, note: u8, velocity: u8 },
    /// Release voice `voice`.
    Stop { voice: usize },
    /// No voice changes.
    Nothing,
}

/// The command for voice 0 that a monophonic key change asks for.
pub open spec fn mono_command(action: MonoAction, has_voice: bool) -> VoiceCommand {
    if !has_voice {
        VoiceCommand::Nothing
    } else {
        match action {
            MonoAction::Play { note, velocity } => VoiceCommand::Start { voice: 0, note, velocity },
            MonoAction::Release { .. } => VoiceCommand::Stop { voice: 0 },
            MonoAction::Hold => VoiceCommand::Nothing,
        }
    }
}

/// Decides which voice plays or releases a note: in mono mode voice 0,
/// following the key stack; in poly mode the allocated voice for a new note
/// and the voice holding a note for its release.
pub struct NoteRouter {
    mode: PolyphonyMode,
    keys: KeyStack,
}

impl NoteRouter {
    /// The polyphony mode.
    pub closed spec fn routing_mode(&self) -> PolyphonyMode {
        self.mode
    }

    /// The held keys of the mono mode, oldest first.
    pub closed spec fn held_keys(&self) -> Seq<(u8, u8)> {
        self.keys@
    }

    /// The key stack holds no note twice.
    pub closed spec fn wf(&self) -> bool {
        self.keys.wf()
    }

    /// Mono mode, no key held.
    pub fn new() -> (r: Self)
        ensures
            r.wf(),
            r.routing_mode() == PolyphonyMode::Mono,
            r.held_keys() == Seq::<(u8, u8)>::empty(),
    {
        NoteRouter { mode: PolyphonyMode::Mono, keys: KeyStack::new() }
    }

    /// The polyphony mode.
    pub fn mode(&self) -> (r: PolyphonyMode)
        ensures
            r == self.routing_mode(),
    {
        self.mode
    }

    /// Switch the polyphony mode. A change forgets the held keys and returns
    /// `true`: the voices have to be silenced; choosing the current mode
    /// changes nothing and returns `false`.
    pub fn set_mode(&mut self, mode: PolyphonyMode) -> (changed: bool)
        requires
            old(self).wf(),
        ensures
            final(self).wf(),
            changed == (mode != old(self).routing_mode()),
            final(self).routing_mode() == mode,
            final(self).held_keys() == if changed { Seq::<(u8, u8)>::empty() } else { old(self).held_keys() },
    {
        if mode != self.mode {
            self.mode = mode;
            self.keys.clear();
            true
        } else {
            false
        }
    }

    /// A note starts. Mono: the key goes on top of the stack and voice 0
    /// plays it. Poly: the allocated voice plays it.
    pub fn note_on(&mut self, voices: &[VoiceStatus], note: u8, velocity: u8) -> (r: VoiceCommand)
        requires
            old(self).wf(),
        ensures
            final(self).wf(),
            final(self).routing_mode() == old(self).routing_mode(),
            old(self).routing_mode() == PolyphonyMode::Mono ==> {
                &&& final(self).held_keys() == without_note(old(self).held_keys(), note).push((note, velocity))
                &&& r == mono_command(MonoAction::Play { note, velocity }, voices@.len() > 0)
            },
            old(self).routing_mode() == PolyphonyMode::Poly ==> {
                &&& final(self).held_keys() == old(self).held_keys()
                &&& (r is Nothing <==> voices@.len() == 0)
                &&& r !is Stop
                &&& r matches VoiceCommand::Start { voice, note: n, velocity: v } ==> n == note && v == velocity
                    && is_allocation(voices@, voice as int)
            },
    {
        match self.mode {
            PolyphonyMode::Mono => {
                let action = self.keys.press(note, velocity);
                if voices.len() > 0 {
                    match action {
                        MonoAction::Play { note, velocity } => VoiceCommand::Start { voice: 0, note, velocity },
                        MonoAction::Release { .. } => VoiceCommand::Stop { voice: 0 },
                        MonoAction::Hold => VoiceCommand::Nothing,
                    }
                } else {
                    VoiceCommand::Nothing
                }
            },
            PolyphonyMode::Poly => {
                match allocate_voice_index(voices) {
                    Some(i) => VoiceCommand::Start { voice: i, note, velocity },
                    None => VoiceCommand::Nothing,
                }
            },
        }
    }

    /// A note ends. Mono: the key leaves the stack; if it was sounding, voice
    /// 0 goes back to the previous held key or is released. Poly: the voice
    /// holding the note is released.
    pub fn note_off(&mut self, voices: &[VoiceStatus], note: u8) -> (r: VoiceCommand)
        requires
            old(self).wf(),
        ensures
            final(self).wf(),
            final(self).routing_mode() == old(self).routing_mode(),
            old(self).routing_mode() == PolyphonyMode::Mono ==> {
                &&& final(self).held_keys() == without_note(old(self).held_keys(), note)
                &&& r == mono_command(release_action(old(self).held_keys(), note), voices@.len() > 0)
            },
            old(self).routing_mode() == PolyphonyMode::Poly ==> {
                &&& final(self).held_keys() == old(self).held_keys()
                &&& r !is Start
                &&& match r {
                    VoiceCommand::Stop { voice } => is_note_holder(voices@, note, voice as int),
                    _ => no_note_holder(voices@, note),
                }
            },
    {
        match self.mode {
            PolyphonyMode::Mono => {
                let action = self.keys.release(note);
                if voices.len() > 0 {
                    match action {
                        MonoAction::Play { note, velocity } => VoiceCommand::Start { voice: 0, note, velocity },
                        MonoAction::Release { .. } => VoiceCommand::Stop { voice: 0 },
                        MonoAction::Hold => VoiceCommand::Nothing,
                    }
                } else {
                    VoiceCommand::Nothing
                }
            },
            PolyphonyMode::Poly => {
                match find_voice_with_note(voices, note) {
                    Some(i) => VoiceCommand::Stop { voice: i },
                    None => VoiceCommand::Nothing,
                }
            },
        }
    }
}

/// The voice chosen for a new note is determined by the voices: no two
/// different voices are both the allocation, and likewise for the voice
/// holding a note.
pub proof fn lemma_voice_choice_unique(voices: Seq<VoiceStatus>, note: u8, i: int, k: int)
    ensures
        is_allocation(voices, i) && is_allocation(voices, k) ==> i == k,
        is_note_holder(voices, note, i) && is_note_holder(voices, note, k) ==> i == k,
{
}

} // verus!
