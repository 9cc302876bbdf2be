use vstd::prelude::*;
use crate::diacritics::{
    apply_telex_w_preserving_tone, apply_telex_w_preserving_tone_spec, base_lower, base_lower_spec,
};
use crate::telex::{telex_escape_char_for_key, telex_escape_char_for_key_spec};
use crate::vni::{
    vni_apply_shape_for_key, vni_apply_shape_for_key_spec, vni_escape_char_for_key,
    vni_escape_char_for_key_spec,
};

verus! {

/// What a backward search through the word looks for.
#[derive(Clone, Copy, Debug)]
pub enum Probe {
    /// A `d` or `D` without its stroke.
    PlainD,
    /// A vowel that takes the shape of the given VNI key.
    VniShape(char),
    /// A vowel that carries the shape of the given VNI key.
    VniEscape(char),
    /// A vowel that the Telex key `w` changes or accepts.
    TelexW,
    /// A vowel that carries the shape of the given Telex key.
    TelexEscape(char),
    /// A `ư` followed by the given letter.
    HornPair(char),
}

/// Whether position `i` of the word holds what the probe looks for.
pub open spec fn probe_hit(w: Seq<char>, i: int, probe: Probe) -> bool {
    match probe {
        Probe::PlainD => w[i] == 'd' || w[i] == 'D',
        Probe::VniShape(key) => vni_apply_shape_for_key_spec(w[i], key) is Some,
        Probe::VniEscape(key) => vni_escape_char_for_key_spec(w[i], key) is Some,
        Probe::TelexW => apply_telex_w_preserving_tone_spec(w[i]) is Some,
        Probe::TelexEscape(key) => telex_escape_char_for_key_spec(w[i], key) is Some,
        Probe::HornPair(second) => i + 1 < w.len() && base_lower_spec(w[i]) == 'ư'
            && base_lower_spec(w[i + 1]) == second,
    }
}

/// The last position in `[lo, before)` that the probe hits.
pub open spec fn last_hit(w: Seq<char>, before: int, lo: int, probe: Probe) -> Option<int>
    decreases before,
{
    if before <= lo || before <= 0 || before > w.len() {
        None
    } else if probe_hit(w, before - 1, probe) {
        Some(before - 1)
    } else {
        last_hit(w, before - 1, lo, probe)
    }
}

/// The lowest position that a key at `before` may reach when at most
/// `distance` characters may stand between the two.
pub open spec fn window_floor(before: int, distance: int) -> int {
    if before > distance + 1 {
        before - distance - 1
    } else {
        0
    }
}

/// What `last_hit` finds is a hit in range, and nothing after it is one.
pub proof fn lemma_last_hit(w: Seq<char>, before: int, lo: int, probe: Probe)
    requires
        0 <= lo,
        before <= w.len(),
    ensures
        match last_hit(w, before, lo, probe) {
            Some(i) => lo <= i < before && probe_hit(w, i, probe) && forall|j: int|
                i < j < before ==> !probe_hit(w, j, probe),
            None => forall|j: int| lo <= j < before ==> !probe_hit(w, j, probe),
        },
    decreases before,
{
    if before > lo && before > 0 && !probe_hit(w, before - 1, probe) {
        lemma_last_hit(w, before - 1, lo, probe);
    }
}

/// The lowest position that a key at `before` may reach.
pub fn window_start(before: usize, distance: usize) -> (r: usize)
    ensures
        r == window_floor(before as int, distance as int),
        r <= before,
{
    if before >= 1 && before - 1 > distance {
        before - 1 - distance
    } else {
        0
    }
}

/// Whether position `i` of the word holds what the probe looks for.
pub fn probe_hits(buf: &Vec<char>, i: usize, probe: Probe) -> (r: bool)
    requires
        i < buf.len(),
    ensures
        r == probe_hit(buf@, i as int, probe),
{
    match probe {
        Probe::PlainD => buf[i] == 'd' || buf[i] == 'D',
        Probe::VniShape(key) => vni_apply_shape_for_key(buf[i], key).is_some(),
        Probe::VniEscape(key) => vni_escape_char_for_key(buf[i], key).is_some(),
        Probe::TelexW => apply_telex_w_preserving_tone(buf[i]).is_some(),
        Probe::TelexEscape(key) => telex_escape_char_for_key(buf[i], key).is_some(),
        Probe::HornPair(second) => i + 1 < buf.len() && base_lower(buf[i]) == 'ư' && base_lower(
            buf[i + 1],
        ) == second,
    }
}

/// The last position in `[lo, before)` that the probe hits.
pub fn find_last_hit(buf: &Vec<char>, before: usize, lo: usize, probe: Probe) -> (r: Option<usize>)
    requires
        before <= buf.len(),
    ensures
        r is Some <==> last_hit(buf@, before as int, lo as int, probe) is Some,
        r is Some ==> r->0 == last_hit(buf@, before as int, lo as int, probe)->0,
        r is Some ==> lo <= r->0 < before && probe_hit(buf@, r->0 as int, probe),
{
    proof {
        lemma_last_hit(buf@, before as int, lo as int, probe);
    }
    let mut index: usize = before;
    while index > lo
        invariant
            index <= before <= buf.len(),
            last_hit(buf@, before as int, lo as int, probe) == last_hit(
                buf@,
                index as int,
                lo as int,
                probe,
            ),
        decreases index,
    {
        index -= 1;
        if probe_hits(buf, index, probe) {
            return Some(index);
        }
    }
    None
}

} // verus!
