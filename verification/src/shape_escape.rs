use vstd::prelude::*;
use crate::common::{KeyTransformAction, Outcome};
use crate::engine::{escaped, VitypeEngine};
use crate::search::{last_hit, Probe};
use crate::telex::telex_escape_char_for_key_spec;
use crate::vni::vni_escape_char_for_key_spec;

verus! {

/// A shape key pressed again: the last vowel that carries the shape
/// loses it, and the key follows as a letter.
pub open spec fn shape_escape_spec(w: Seq<char>, probe: Probe, ch: char) -> Option<Outcome> {
    match last_hit(w, w.len() as int, 0, probe) {
        Some(i) => Some(
            escaped(w.len() as int, w.update(i, probe_unshaped(w[i], probe)).push(ch), i),
        ),
        None => None,
    }
}

/// The vowel at a hit of an escape probe, without the shape of the key.
pub open spec fn probe_unshaped(ch: char, probe: Probe) -> char {
    match probe {
        Probe::VniEscape(key) => vni_escape_char_for_key_spec(ch, key)->0,
        Probe::TelexEscape(key) => telex_escape_char_for_key_spec(ch, key)->0,
        _ => ch,
    }
}

impl VitypeEngine {
    /// Puts `unshaped` in place of the shaped vowel at `index` and appends
    /// `ch` as a letter.
    pub fn undo_shape_at(&mut self, index: usize, unshaped: char, ch: char, suppress_key: char) -> (r:
        KeyTransformAction)
        requires
            index < old(self).buffer@.len(),
        ensures
            final(self).same_settings(old(self)),
            escaped(
                old(self).buffer@.len() as int,
                old(self).buffer@.update(index as int, unshaped).push(ch),
                index as int,
            ) == (Outcome { word: final(self).word(), rewrite: r@ }),
    {
        let n = self.buffer.len();
        let ghost w = self.buffer@;
        self.buffer[index] = unshaped;
        self.buffer.push(ch);
        self.clear_last_transform_and_suppress(suppress_key);
        assert(self.buffer@ =~= w.update(index as int, unshaped).push(ch));
        self.action_from(n, index)
    }
}

} // verus!
