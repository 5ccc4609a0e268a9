//! The text of the CC mapping file: a JSON object from CC numbers to
//! parameter display names, read and written with `serde_json`.
//!
//! Reading keeps the entries whose name is a parameter's display name and
//! skips the others; writing stores each mapping's parameter under its
//! display name.

use std::collections::{BTreeMap, HashMap};
use vstd::prelude::*;

use crate::gui::{map_of_entries, CcMapping};
use crate::params::{lemma_param_names_distinct, param_name, SynthParam};

verus! {

broadcast use {vstd::std_specs::hash::group_hash_axioms, vstd::laws_cmp::group_laws_cmp};

#[verifier::external_type_specification]
#[verifier::external_body]
pub struct ExJsonError(serde_json::Error);

/// The CC → string map that `serde_json` reads from a text, or `None` where
/// the text is not a JSON object from CC numbers (0-255) to strings.
pub uninterp spec fn json_cc_names(text: Seq<char>) -> Option<Map<u8, Seq<char>>>;

/// The pretty-printed JSON text that `serde_json` writes for a CC → string
/// map held in increasing CC order.
pub uninterp spec fn json_text_of_cc_names(names: Map<u8, Seq<char>>) -> Seq<char>;

/// A map of strings seen as a map of character sequences.
pub open spec fn string_view_map(m: Map<u8, String>) -> Map<u8, Seq<char>> {
    Map::new(|k: u8| m.contains_key(k), |k: u8| m[k]@)
}

/// The mappings named by a CC → name map, for the CCs below `n` in
/// increasing order: each CC whose name is a parameter's display name maps to
/// that parameter; other names are skipped.
pub open spec fn named_mappings(names: Map<u8, Seq<char>>, n: nat) -> Seq<CcMapping>
    decreases n,
{
    if n == 0 {
        Seq::empty()
    } else {
        let c = (n - 1) as u8;
        let prev = named_mappings(names, (n - 1) as nat);
        if names.contains_key(c) && exists|p: SynthParam| param_name(p) == names[c] {
            prev.push(CcMapping { cc: c, param: choose|p: SynthParam| param_name(p) == names[c] })
        } else {
            prev
        }
    }
}

/// The CC → display name map that a list of mappings is saved as (a later
/// entry for the same CC wins).
pub open spec fn names_of_mappings(entries: Seq<CcMapping>) -> Map<u8, Seq<char>> {
    Map::new(
        |c: u8| map_of_entries(entries).contains_key(c),
        |c: u8| param_name(map_of_entries(entries)[c]),
    )
}

/// Reads `text` with `serde_json::from_str` as a map from CC numbers to
/// strings. Claimed: it succeeds exactly where serde_json reads such a map
/// (the result named `json_cc_names`), and then returns that map.
#[verifier::external_body]
fn read_cc_names(text: &str) -> (r: Result<HashMap<u8, String>, serde_json::Error>)
    ensures
        r is Ok <==> json_cc_names(text@) is Some,
        r matches Ok(m) ==> string_view_map(m@) == json_cc_names(text@).unwrap(),
{
    serde_json::from_str(text)
}

/// Writes a CC → name map with `serde_json::to_string_pretty`. Claimed: it
/// succeeds, and the text is the one named `json_text_of_cc_names` for the
/// map's contents. serde_json documents failure only for a `Serialize`
/// implementation that fails or a map whose keys are not strings; its source
/// writes integer map keys (`u8` here) as strings, strings never fail, and
/// the output goes to a `Vec`, whose writes do not fail.
#[verifier::external_body]
fn write_cc_names(names: &BTreeMap<u8, String>) -> (r: Result<String, serde_json::Error>)
    ensures
        r is Ok,
        r matches Ok(t) ==> t@ == json_text_of_cc_names(string_view_map(names@)),
{
    serde_json::to_string_pretty(names)
}

/// The message of a `serde_json` error (its `Display` text). Nothing is
/// claimed of the text.
#[verifier::external_body]
fn json_error_message(e: &serde_json::Error) -> String {
    e.to_string()
}

/// Why the CC mapping file's text could not be produced: `serde_json`'s
/// message.
#[derive(Debug)]
pub enum CcFileError {
    Json(String),
}

/// The mappings that a CC → name map stands for, in increasing CC order:
/// each CC whose name is a parameter's display name maps to that parameter;
/// other names are skipped.
pub fn mappings_of_names(m: &HashMap<u8, String>) -> (r: Vec<CcMapping>)
    ensures
        r@ == named_mappings(string_view_map(m@), 256),
{
    let ghost names = string_view_map(m@);
    let mut out: Vec<CcMapping> = Vec::new();
    let mut c: u16 = 0;
    while c < 256
        invariant
            c <= 256,
            string_view_map(m@) == names,
            out@ == named_mappings(names, c as nat),
        decreases 256 - c,
    {
        let cc = c as u8;
        let ghost prev = out@;
        assert(named_mappings(names, c as nat + 1) == if names.contains_key(cc) && exists|p: SynthParam|
            param_name(p) == names[cc] {
            prev.push(CcMapping { cc, param: choose|p: SynthParam| param_name(p) == names[cc] })
        } else {
            prev
        });
        match m.get(&cc) {
            Some(name) => {
                assert(names.contains_key(cc) && names[cc] == name@);
                match SynthParam::from_name(name.as_str()) {
                    Some(p) => {
                        proof {
                            let q = choose|q: SynthParam| param_name(q) == names[cc];
                            lemma_param_names_distinct(p, q);
                        }
                        out.push(CcMapping { cc, param: p });
                    },
                    None => {},
                }
            },
            None => {
                assert(!names.contains_key(cc));
            },
        }
        c = c + 1;
    }
    out
}

/// The mappings stored in the CC mapping file's text, in increasing CC
/// order; `None` where the text is not a JSON object from CC numbers to
/// names. Names of no parameter are skipped.
pub fn cc_mappings_from_json(text: &str) -> (r: Option<Vec<CcMapping>>)
    ensures
        r is None <==> json_cc_names(text@) is None,
        r matches Some(v) ==> v@ == named_mappings(json_cc_names(text@).unwrap(), 256),
{
    match read_cc_names(text) {
        Err(_) => None,
        Ok(m) => Some(mappings_of_names(&m)),
    }
}

/// The CC mapping file's text for a list of mappings: each mapping's
/// parameter under its display name (a later entry for the same CC wins).
pub fn cc_mappings_to_json(mappings: &Vec<CcMapping>) -> (r: Result<String, CcFileError>)
    ensures
        r is Ok,
        r matches Ok(t) ==> t@ == json_text_of_cc_names(names_of_mappings(mappings@)),
{
    let mut names: BTreeMap<u8, String> = BTreeMap::new();
    let mut i: usize = 0;
    while i < mappings.len()
        invariant
            i <= mappings@.len(),
            string_view_map(names@) == names_of_mappings(mappings@.take(i as int)),
        decreases mappings@.len() - i,
    {
        let m = mappings[i];
        let ghost before = names@;
        let name = String::from_str(m.param.name());
        names.insert(m.cc, name);
        proof {
            let prefix = mappings@.take(i + 1);
            assert(prefix.drop_last() =~= mappings@.take(i as int));
            assert(prefix.last() == m);
            let old_map = map_of_entries(mappings@.take(i as int));
            assert forall|c: u8| #[trigger] string_view_map(names@).contains_key(c)
                <==> names_of_mappings(prefix).contains_key(c) by {
                assert(string_view_map(before).contains_key(c) == names_of_mappings(mappings@.take(i as int)).contains_key(c));
            }
            assert forall|c: u8| #[trigger] string_view_map(names@).contains_key(c)
                implies string_view_map(names@)[c] == names_of_mappings(prefix)[c] by {
                if c != m.cc {
                    assert(string_view_map(before)[c] == names_of_mappings(mappings@.take(i as int))[c]);
                    assert(old_map.contains_key(c));
                }
            }
            assert(string_view_map(names@) =~= names_of_mappings(prefix));
        }
        i = i + 1;
    }
    assert(mappings@.take(mappings@.len() as int) =~= mappings@);
    match write_cc_names(&names) {
        Ok(text) => Ok(text),
        Err(e) => Err(CcFileError::Json(json_error_message(&e))),
    }
}

/// `r` lists exactly the bindings of `m` as mappings, in strictly increasing
/// CC order.
pub open spec fn lists_in_cc_order(m: Map<u8, SynthParam>, r: Seq<CcMapping>) -> bool {
    &&& forall|i: int| 0 <= i < r.len() ==> m.contains_key(#[trigger] r[i].cc) && m[r[i].cc] == r[i].param
    &&& forall|i: int, j: int| 0 <= i < j < r.len() ==> #[trigger] r[i].cc < #[trigger] r[j].cc
    &&& forall|c: u8| m.contains_key(c) ==> exists|i: int| 0 <= i < r.len() && #[trigger] r[i].cc == c
}

proof fn lemma_named_mappings_prefix(entries: Seq<CcMapping>, n: nat)
    requires
        n <= 256,
    ensures
        ({
            let m = map_of_entries(entries);
            let s = named_mappings(names_of_mappings(entries), n);
            &&& forall|i: int| 0 <= i < s.len() ==> #[trigger] s[i].cc < n && m.contains_key(s[i].cc)
                && m[s[i].cc] == s[i].param
            &&& forall|i: int, j: int| 0 <= i < j < s.len() ==> #[trigger] s[i].cc < #[trigger] s[j].cc
            &&& forall|c: u8| c < n && m.contains_key(c) ==> exists|i: int| 0 <= i < s.len() && #[trigger] s[i].cc == c
        }),
    decreases n,
{
    let m = map_of_entries(entries);
    let names = names_of_mappings(entries);
    if n > 0 {
        lemma_named_mappings_prefix(entries, (n - 1) as nat);
        let prev = named_mappings(names, (n - 1) as nat);
        let c = (n - 1) as u8;
        let s = named_mappings(names, n);
        if m.contains_key(c) {
            assert(names.contains_key(c) && names[c] == param_name(m[c]));
            let q = choose|q: SynthParam| param_name(q) == names[c];
            lemma_param_names_distinct(q, m[c]);
            assert(s == prev.push(CcMapping { cc: c, param: m[c] }));
            assert forall|d: u8| d < n && m.contains_key(d) implies exists|i: int| 0 <= i < s.len() && #[trigger] s[i].cc == d by {
                if d == c {
                    assert(s[prev.len() as int].cc == d);
                } else {
                    let i = choose|i: int| 0 <= i < prev.len() && #[trigger] prev[i].cc == d;
                    assert(s[i] == prev[i]);
                }
            }
            assert forall|i: int, j: int| 0 <= i < j < s.len() implies #[trigger] s[i].cc < #[trigger] s[j].cc by {
                assert(s[i] == prev[i]);
                if j < prev.len() {
                    assert(s[j] == prev[j]);
                }
            }
            assert forall|i: int| 0 <= i < s.len() implies #[trigger] s[i].cc < n && m.contains_key(s[i].cc)
                && m[s[i].cc] == s[i].param by {
                if i < prev.len() {
                    assert(s[i] == prev[i]);
                }
            }
        } else {
            assert(!names.contains_key(c));
            assert(s == prev);
        }
    }
}

/// Saving then reading the CC mapping file keeps the mappings: the names
/// written for a list of mappings read back as exactly its CC → parameter
/// bindings (a later entry for a CC winning), listed in CC order.
pub proof fn lemma_names_read_back(entries: Seq<CcMapping>)
    ensures
        lists_in_cc_order(map_of_entries(entries), named_mappings(names_of_mappings(entries), 256)),
{
    lemma_named_mappings_prefix(entries, 256);
}

} // verus!
