//! Plain decisions of the GUI backends: parameter lookup by index, MIDI CC
//! learn, the CC → parameter routing of the standalone backend (custom
//! mappings over the default CC layout), and the order of the CC activity
//! list. A CC value is scaled by the driven parameter's spec (`spec`).

use std::collections::HashMap;
use vstd::prelude::*;

use crate::param_spec::{param_at_index, param_with_index, NUM_PARAMS};
use crate::params::{default_cc_map, lookup_param, SynthParam};

verus! {

broadcast use vstd::std_specs::hash::group_hash_axioms;

/// Convert index back to SynthParam (for MIDI feedback display)
pub fn index_to_param(index: usize) -> (r: Option<SynthParam>)
    ensures
        r == param_with_index(index as int),
        r is None <==> index >= NUM_PARAMS,
{
    param_at_index(index)
}

/// A CC-to-parameter mapping entry
#[derive(Debug, Clone, Copy, PartialEq, Eq, Structural)]
pub struct CcMapping {
    pub cc: u8,
    pub param: SynthParam,
}

/// MIDI learn state
#[derive(Debug, Clone, Copy, PartialEq, Eq, Structural)]
pub enum MidiLearnState {
    Idle,
    Waiting(SynthParam),
}

/// Parameter a CC drives when no custom mapping claims it: the default CC
/// layout (the README's MIDI CC table).
pub fn default_cc_param(cc: u8) -> (r: Option<SynthParam>)
    ensures
        r == lookup_param(default_cc_map(), cc),
{
    match cc {
        73 => Some(SynthParam::Attack),
        83 => Some(SynthParam::Decay),
        84 => Some(SynthParam::Sustain),
        72 => Some(SynthParam::Release),
        74 => Some(SynthParam::FilterCutoff),
        71 => Some(SynthParam::FilterResonance),
        75 => Some(SynthParam::Osc1Waveform),
        76 => Some(SynthParam::Osc2Waveform),
        77 => Some(SynthParam::Osc3Waveform),
        78 => Some(SynthParam::Osc2Semitones),
        79 => Some(SynthParam::Osc3Semitones),
        80 => Some(SynthParam::Osc1Level),
        81 => Some(SynthParam::Osc2Level),
        82 => Some(SynthParam::Osc3Level),
        85 => Some(SynthParam::Osc2Cents),
        86 => Some(SynthParam::Osc3Cents),
        87 => Some(SynthParam::Osc1Phase),
        89 => Some(SynthParam::Osc2Phase),
        90 => Some(SynthParam::Osc3Phase),
        103 => Some(SynthParam::FilterAttack),
        104 => Some(SynthParam::FilterDecay),
        105 => Some(SynthParam::FilterSustain),
        106 => Some(SynthParam::FilterRelease),
        107 => Some(SynthParam::FilterEnvAmount),
        108 => Some(SynthParam::LfoRate),
        109 => Some(SynthParam::LfoDepth),
        110 => Some(SynthParam::LfoWaveform),
        111 => Some(SynthParam::LfoDestination),
        102 => Some(SynthParam::PitchBendRange),
        5 => Some(SynthParam::PortamentoTime),
        _ => None,
    }
}

/// The parameter a CC drives: a custom mapping wins over the default layout.
pub open spec fn routed_param(custom: Map<u8, SynthParam>, cc: u8) -> Option<SynthParam> {
    if custom.contains_key(cc) {
        Some(custom[cc])
    } else {
        lookup_param(default_cc_map(), cc)
    }
}

/// The CC → parameter map given by a list of entries; a later entry for the
/// same CC replaces an earlier one.
pub open spec fn map_of_entries(entries: Seq<CcMapping>) -> Map<u8, SynthParam>
    decreases entries.len(),
{
    if entries.len() == 0 {
        Map::empty()
    } else {
        map_of_entries(entries.drop_last()).insert(entries.last().cc, entries.last().param)
    }
}

/// MIDI CC learn with the user's custom CC mappings.
pub struct MidiLearn {
    state: MidiLearnState,
    custom_cc_map: HashMap<u8, SynthParam>,
}

impl MidiLearn {
    /// The current learn state.
    pub closed spec fn learn_state(&self) -> MidiLearnState {
        self.state
    }

    /// The user's custom CC → parameter map.
    pub closed spec fn custom_map(&self) -> Map<u8, SynthParam> {
        self.custom_cc_map@
    }

    /// Idle, with the given custom mappings (later entries win).
    pub fn new(mappings: &Vec<CcMapping>) -> (r: Self)
        ensures
            r.learn_state() == MidiLearnState::Idle,
            r.custom_map() == map_of_entries(mappings@),
    {
        let mut map: HashMap<u8, SynthParam> = HashMap::new();
        let mut i: usize = 0;
        while i < mappings.len()
            invariant
                i <= mappings@.len(),
                map@ == map_of_entries(mappings@.take(i as int)),
            decreases mappings@.len() - i,
        {
            let m = mappings[i];
            map.insert(m.cc, m.param);
            proof {
                assert(mappings@.take(i + 1).drop_last() =~= mappings@.take(i as int));
                assert(mappings@.take(i + 1).last() == m);
            }
            i = i + 1;
        }
        assert(mappings@.take(mappings@.len() as int) =~= mappings@);
        MidiLearn { state: MidiLearnState::Idle, custom_cc_map: map }
    }

    /// Current MIDI learn state
    pub fn midi_learn_state(&self) -> (r: MidiLearnState)
        ensures
            r == self.learn_state(),
    {
        self.state
    }

    /// Start learning a CC for the given parameter
    pub fn start_midi_learn(&mut self, param: SynthParam)
        ensures
            final(self).learn_state() == MidiLearnState::Waiting(param),
            final(self).custom_map() == old(self).custom_map(),
    {
        self.state = MidiLearnState::Waiting(param);
    }

    /// Cancel current MIDI learn
    pub fn cancel_midi_learn(&mut self)
        ensures
            final(self).learn_state() == MidiLearnState::Idle,
            final(self).custom_map() == old(self).custom_map(),
    {
        self.state = MidiLearnState::Idle;
    }

    /// A control change arrived on `cc`. While waiting, the awaited
    /// parameter is bound to `cc` (returned so that it can be saved) and the
    /// learn ends; otherwise nothing changes.
    pub fn on_control_change(&mut self, cc: u8) -> (r: Option<CcMapping>)
        ensures
            final(self).learn_state() == MidiLearnState::Idle,
            match old(self).learn_state() {
                MidiLearnState::Waiting(p) => {
                    &&& r == Some(CcMapping { cc, param: p })
                    &&& final(self).custom_map() == old(self).custom_map().insert(cc, p)
                },
                MidiLearnState::Idle => {
                    &&& r is None
                    &&& final(self).custom_map() == old(self).custom_map()
                },
            },
    {
        match self.state {
            MidiLearnState::Waiting(target_param) => {
                self.state = MidiLearnState::Idle;
                self.custom_cc_map.insert(cc, target_param);
                Some(CcMapping { cc, param: target_param })
            },
            MidiLearnState::Idle => None,
        }
    }

    /// Parameter a CC drives: a custom mapping wins over the built-in one.
    pub fn target_for_cc(&self, cc: u8) -> (r: Option<SynthParam>)
        ensures
            r == routed_param(self.custom_map(), cc),
    {
        match self.custom_cc_map.get(&cc) {
            Some(p) => Some(*p),
            None => default_cc_param(cc),
        }
    }

    /// Custom (user) CC mappings, sorted by CC number
    pub fn custom_cc_mappings(&self) -> (r: Vec<CcMapping>)
        ensures
            forall|i: int| 0 <= i < r@.len() ==> self.custom_map().contains_key(#[trigger] r@[i].cc)
                && self.custom_map()[r@[i].cc] == r@[i].param,
            forall|i: int, j: int| 0 <= i < j < r@.len() ==> #[trigger] r@[i].cc < #[trigger] r@[j].cc,
            forall|c: u8| self.custom_map().contains_key(c) ==> exists|i: int| 0 <= i < r@.len() && #[trigger] r@[i].cc == c,
    {
        let mut out: Vec<CcMapping> = Vec::new();
        let mut c: u16 = 0;
        while c < 256
            invariant
                c <= 256,
                forall|i: int| 0 <= i < out@.len() ==> self.custom_map().contains_key(#[trigger] out@[i].cc)
                    && self.custom_map()[out@[i].cc] == out@[i].param,
                forall|i: int| 0 <= i < out@.len() ==> #[trigger] out@[i].cc < c,
                forall|i: int, j: int| 0 <= i < j < out@.len() ==> #[trigger] out@[i].cc < #[trigger] out@[j].cc,
                forall|x: u8| x < c && self.custom_map().contains_key(x) ==> exists|i: int| 0 <= i < out@.len() && #[trigger] out@[i].cc == x,
            decreases 256 - c,
        {
            let cc = c as u8;
            let ghost before = out@;
            match self.custom_cc_map.get(&cc) {
                Some(p) => {
                    out.push(CcMapping { cc, param: *p });
                },
                None => {},
            }
            proof {
                assert forall|x: u8| x < c + 1 && self.custom_map().contains_key(x) implies exists|i: int|
                    0 <= i < out@.len() && #[trigger] out@[i].cc == x by {
                    if x == cc {
                        let n = out@.len() - 1;
                        assert(out@[n].cc == cc);
                    } else {
                        let i = choose|i: int| 0 <= i < before.len() && #[trigger] before[i].cc == x;
                        assert(out@[i] == before[i]);
                    }
                }
            }
            c = c + 1;
        }
        out
    }

    /// Clear all custom CC mappings
    pub fn clear_cc_mappings(&mut self)
        ensures
            final(self).custom_map() == Map::<u8, SynthParam>::empty(),
            final(self).learn_state() == old(self).learn_state(),
    {
        self.custom_cc_map.clear();
    }
}

/// MIDI learn binds the CC it hears: after waiting for a parameter and
/// receiving a CC, that CC drives the parameter (whatever the default layout
/// says), and every other CC keeps its route.
pub proof fn lemma_learn_binds(custom: Map<u8, SynthParam>, cc: u8, p: SynthParam)
    ensures
        routed_param(custom.insert(cc, p), cc) == Some(p),
        forall|c: u8| c != cc ==> routed_param(custom.insert(cc, p), c) == routed_param(custom, c),
{
}

/// Without custom mappings every CC of the default layout drives its default
/// parameter, and no other CC drives anything.
pub proof fn lemma_default_routing(cc: u8)
    ensures
        routed_param(Map::<u8, SynthParam>::empty(), cc) == lookup_param(default_cc_map(), cc),
{
}

/// Whether an activity entry (CC number, value) is for CC `c`.
pub open spec fn is_for_cc(c: u8) -> spec_fn((u8, u8)) -> bool {
    |e: (u8, u8)| e.0 == c
}

/// The activity entries for the CCs below `n`, grouped by CC number in
/// increasing order, each group in its original order.
pub open spec fn activity_by_cc(entries: Seq<(u8, u8)>, n: nat) -> Seq<(u8, u8)>
    decreases n,
{
    if n == 0 {
        Seq::empty()
    } else {
        activity_by_cc(entries, (n - 1) as nat) + entries.filter(is_for_cc((n - 1) as u8))
    }
}

/// The CC activity (CC number, last value) ordered by CC number; entries for
/// the same CC keep their order.
pub fn cc_activity_sorted(entries: &Vec<(u8, u8)>) -> (r: Vec<(u8, u8)>)
    ensures
        r@ == activity_by_cc(entries@, 256),
{
    let mut out: Vec<(u8, u8)> = Vec::new();
    let mut c: u16 = 0;
    while c < 256
        invariant
            c <= 256,
            out@ == activity_by_cc(entries@, c as nat),
        decreases 256 - c,
    {
        let cc = c as u8;
        let ghost pred = is_for_cc(cc);
        let ghost start = out@;
        let mut i: usize = 0;
        while i < entries.len()
            invariant
                i <= entries@.len(),
                pred == is_for_cc(cc),
                out@ == start + entries@.take(i as int).filter(pred),
            decreases entries@.len() - i,
        {
            let e = entries[i];
            proof {
                reveal_with_fuel(Seq::<_>::filter, 1);
                let t = entries@.take(i + 1);
                assert(t.drop_last() =~= entries@.take(i as int));
                assert(t.last() == e);
                assert(t.filter(pred) == (if pred(e) { t.drop_last().filter(pred).push(e) } else { t.drop_last().filter(pred) }));
            }
            if e.0 == cc {
                out.push(e);
            }
            i = i + 1;
        }
        assert(entries@.take(entries@.len() as int) =~= entries@);
        assert(out@ =~= activity_by_cc(entries@, c as nat + 1));
        c = c + 1;
    }
    out
}

/// The CC activity comes out in increasing CC order: every listed entry is
/// for a CC below the bound, and no entry is listed after one for a higher
/// CC.
pub proof fn lemma_activity_in_cc_order(entries: Seq<(u8, u8)>, n: nat)
    requires
        n <= 256,
    ensures
        forall|i: int| 0 <= i < activity_by_cc(entries, n).len() ==> #[trigger] activity_by_cc(entries, n)[i].0 < n,
        forall|i: int, j: int| 0 <= i < j < activity_by_cc(entries, n).len()
            ==> #[trigger] activity_by_cc(entries, n)[i].0 <= #[trigger] activity_by_cc(entries, n)[j].0,
    decreases n,
{
    if n > 0 {
        let prev = activity_by_cc(entries, (n - 1) as nat);
        let pred = is_for_cc((n - 1) as u8);
        let group = entries.filter(pred);
        lemma_activity_in_cc_order(entries, (n - 1) as nat);
        let a = activity_by_cc(entries, n);
        assert(a == prev + group);
        assert forall|k: int| 0 <= k < group.len() implies #[trigger] group[k].0 == n - 1 by {
            entries.lemma_filter_pred(pred, k);
        }
        assert forall|i: int| 0 <= i < a.len() implies #[trigger] a[i].0 < n by {
            if i >= prev.len() {
                assert(a[i] == group[i - prev.len()]);
            }
        }
        assert forall|i: int, j: int| 0 <= i < j < a.len() implies #[trigger] a[i].0 <= #[trigger] a[j].0 by {
            if j >= prev.len() {
                assert(a[j] == group[j - prev.len()]);
                if i >= prev.len() {
                    assert(a[i] == group[i - prev.len()]);
                } else {
                    assert(a[i] == prev[i]);
                }
            } else {
                assert(a[i] == prev[i] && a[j] == prev[j]);
            }
        }
    }
}

} // verus!
