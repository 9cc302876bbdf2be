use vstd::prelude::*;
use crate::classify::{is_escape_candidate, is_escape_candidate_spec};
use crate::common::{InputMethod, KeyTransformAction, Outcome, WordModel, WTransformKind};
use crate::compound::{compound_chain_spec, escape_compound_spec, finish_shape_spec};
use crate::diacritics::{
    apply_shape_preserving_tone, apply_shape_preserving_tone_spec, escape_shape_preserving_tone,
    escape_shape_preserving_tone_spec, split_spec, VowelShape,
};
use crate::engine::{FREE_TRANSFORM_WINDOW, step_matches, step_matches_or, VitypeEngine};
use crate::letters::{
    is_ascii_punctuation, is_ascii_punctuation_spec, is_ascii_whitespace, is_ascii_whitespace_spec,
    is_upper_spec,
};
use crate::search::{find_last_hit, last_hit, window_floor, window_start, Probe};
use crate::shape_escape::shape_escape_spec;
use crate::stroke::stroke_escape_spec;
use crate::syllable::syllable_ok;
use crate::tone_mark::{tone_escape_spec, tone_mark_spec, tone_refusal_spec};

verus! {

/// The VNI tone keys: `1` to `5`, and `0`, which removes a tone.
pub open spec fn is_vni_tone_key_spec(ch: char) -> bool {
    '0' <= ch <= '5'
}

/// The VNI shape keys: `6`, `7` and `8`.
pub open spec fn is_vni_vowel_transform_key_spec(ch: char) -> bool {
    ch == '6' || ch == '7' || ch == '8'
}

/// In VNI a word ends at ASCII white space and punctuation.
pub open spec fn is_vni_word_boundary_spec(ch: char) -> bool {
    is_ascii_whitespace_spec(ch) || is_ascii_punctuation_spec(ch)
}

/// The shape that a VNI key types: `6` circumflex, `7` horn, `8` breve.
pub open spec fn vni_shape_for_key(key: char) -> Option<VowelShape> {
    if key == '6' {
        Some(VowelShape::Circumflex)
    } else if key == '7' {
        Some(VowelShape::Horn)
    } else if key == '8' {
        Some(VowelShape::Breve)
    } else {
        None
    }
}

/// The vowel `ch` without the shape that `key` types, its tone kept.
pub open spec fn vni_escape_char_for_key_spec(ch: char, key: char) -> Option<char> {
    match vni_shape_for_key(key) {
        Some(kind) => escape_shape_preserving_tone_spec(ch, kind),
        None => None,
    }
}

/// The vowel `ch` with the shape that `key` types, its tone kept.
pub open spec fn vni_apply_shape_for_key_spec(ch: char, key: char) -> Option<char> {
    match vni_shape_for_key(key) {
        Some(kind) => apply_shape_preserving_tone_spec(ch, kind),
        None => None,
    }
}

/// The tone that a VNI digit types, named by its Telex letter; `0`, which
/// removes the tone, is `z`.
pub open spec fn vni_tone_key_to_internal_spec(ch: char) -> Option<char> {
    if ch == '1' {
        Some('s')
    } else if ch == '2' {
        Some('f')
    } else if ch == '3' {
        Some('r')
    } else if ch == '4' {
        Some('x')
    } else if ch == '5' {
        Some('j')
    } else if ch == '0' {
        Some('z')
    } else {
        None
    }
}

/// Whether a key is a VNI tone key.
pub fn is_vni_tone_key(ch: char) -> (r: bool)
    ensures
        r == is_vni_tone_key_spec(ch),
{
    '0' <= ch && ch <= '5'
}

/// Whether a key is a VNI shape key.
pub fn is_vni_vowel_transform_key(ch: char) -> (r: bool)
    ensures
        r == is_vni_vowel_transform_key_spec(ch),
{
    ch == '6' || ch == '7' || ch == '8'
}

/// In VNI a word ends at ASCII white space and punctuation; digits are keys.
pub fn is_vni_word_boundary(ch: char) -> (r: bool)
    ensures
        r == is_vni_word_boundary_spec(ch),
{
    is_ascii_whitespace(ch) || is_ascii_punctuation(ch)
}

/// The vowel `ch` without the shape that `key` types, its tone kept.
pub fn vni_escape_char_for_key(ch: char, key: char) -> (r: Option<char>)
    ensures
        r == vni_escape_char_for_key_spec(ch, key),
        r is Some ==> is_upper_spec(r->0) == is_upper_spec(ch),
        r is Some ==> split_spec(r->0).1 == split_spec(ch).1,
{
    let kind = match key {
        '6' => VowelShape::Circumflex,
        '7' => VowelShape::Horn,
        '8' => VowelShape::Breve,
        _ => { return None; },
    };
    escape_shape_preserving_tone(ch, kind)
}

/// The vowel `ch` with the shape that `key` types, its tone kept.
pub fn vni_apply_shape_for_key(ch: char, key: char) -> (r: Option<char>)
    ensures
        r == vni_apply_shape_for_key_spec(ch, key),
        r is Some ==> is_upper_spec(r->0) == is_upper_spec(ch),
        r is Some ==> split_spec(r->0).1 == split_spec(ch).1,
{
    let kind = match key {
        '6' => VowelShape::Circumflex,
        '7' => VowelShape::Horn,
        '8' => VowelShape::Breve,
        _ => { return None; },
    };
    apply_shape_preserving_tone(ch, kind)
}

/// The tone that a VNI digit types, named by its Telex letter.
pub fn vni_tone_key_to_internal(ch: char) -> (r: Option<char>)
    ensures
        r == vni_tone_key_to_internal_spec(ch),
        r is Some <==> is_vni_tone_key_spec(ch),
{
    match ch {
        '1' => Some('s'),
        '2' => Some('f'),
        '3' => Some('r'),
        '4' => Some('x'),
        '5' => Some('j'),
        '0' => Some('z'),
        _ => None,
    }
}

/// A VNI key pressed again right after it changed the word. The horn key
/// undoes a compound rule; `9` takes the stroke off a final `đ`; a shape
/// key takes its shape off the last vowel that carries it; a tone key
/// takes its tone off. The key follows as a letter.
pub open spec fn vni_escape_spec(word: WordModel, ch: char) -> Option<Outcome> {
    let w = word.buffer;
    let n = w.len() as int;
    let compound = if ch == '7' {
        escape_compound_spec(word, ch)
    } else {
        None
    };
    if !is_escape_candidate_spec(word.last_transform_key, ch, InputMethod::Vni) {
        None
    } else if compound is Some {
        compound
    } else if ch == '9' && stroke_escape_spec(w, '9') is Some {
        stroke_escape_spec(w, '9')
    } else if is_vni_vowel_transform_key_spec(ch) && shape_escape_spec(w, Probe::VniEscape(ch), ch)
        is Some {
        shape_escape_spec(w, Probe::VniEscape(ch), ch)
    } else if is_vni_tone_key_spec(ch) {
        tone_escape_spec(w, ch, vni_tone_key_to_internal_spec(ch)->0)
    } else {
        None
    }
}

/// A VNI shape key on a word whose last character is the key. The horn
/// key first tries the compound rules; then the nearest vowel within the
/// window that takes the shape gets it.
pub open spec fn vni_vowel_transform_spec(word: WordModel, ch: char, auto_fix: bool) -> Option<
    Outcome,
> {
    let n = word.buffer.len() - 1;
    let compound = if ch == '7' {
        compound_chain_spec(word, '7', auto_fix)
    } else {
        None
    };
    let site = last_hit(
        word.buffer,
        n,
        window_floor(n, FREE_TRANSFORM_WINDOW as int),
        Probe::VniShape(ch),
    );
    if !is_vni_vowel_transform_key_spec(ch) || word.buffer.len() == 0 {
        None
    } else if compound is Some {
        compound
    } else {
        match site {
            Some(i) => Some(
                finish_shape_spec(
                    word,
                    n,
                    word.buffer.take(n).update(
                        i,
                        vni_apply_shape_for_key_spec(word.buffer[i], ch)->0,
                    ),
                    ch,
                    WTransformKind::Unset,
                    i,
                    auto_fix,
                ),
            ),
            None => None,
        }
    }
}

/// The VNI stroke key `9` on a word that ends with it.
pub open spec fn vni_consonant_transform_spec(word: WordModel, ch: char) -> Option<Outcome> {
    if ch == '9' {
        crate::stroke::d_stroke_spec(word, '9')
    } else {
        None
    }
}

/// A VNI tone key on a word that ends with it.
pub open spec fn vni_tone_mark_spec(word: WordModel, ch: char, relaxed: bool) -> Option<Outcome> {
    match vni_tone_key_to_internal_spec(ch) {
        Some(tone_key) => tone_mark_spec(word, tone_key, ch, relaxed),
        None => None,
    }
}

/// The word after a VNI key that the tone step did not take: a tone key
/// on a word that forms no syllable puts it into foreign mode.
pub open spec fn vni_tone_refusal_spec(word: WordModel, ch: char, relaxed: bool) -> WordModel {
    if is_vni_tone_key_spec(ch) {
        tone_refusal_spec(word, relaxed)
    } else {
        word
    }
}

impl VitypeEngine {
    /// A VNI key that may repeat the key of the last transform; the word
    /// does not hold the key yet.
    pub fn try_vni_escape_sequence(&mut self, ch: char) -> (r: Option<KeyTransformAction>)
        ensures
            step_matches(old(self), final(self), r, vni_escape_spec(old(self).word(), ch)),
    {
        if !is_escape_candidate(self.last_transform_key, ch, InputMethod::Vni) {
            return None;
        }
        if ch == '7' {
            let r = self.try_escape_compound_horn_key(ch, ch);
            if r.is_some() {
                return r;
            }
        }
        if ch == '9' {
            let r = self.escape_final_stroke('9', '9');
            if r.is_some() {
                return r;
            }
        }
        if ch == '6' || ch == '7' || ch == '8' {
            match self.find_last_vni_untransformable_vowel(ch, self.buffer.len()) {
                Some((index, unshaped)) => {
                    return Some(self.undo_shape_at(index, unshaped, ch, ch));
                },
                None => {},
            }
        }
        if is_vni_tone_key(ch) {
            match vni_tone_key_to_internal(ch) {
                Some(internal_tone_key) => {
                    let r = self.try_escape_repeated_tone_key(ch, internal_tone_key, ch);
                    if r.is_some() {
                        return r;
                    }
                },
                None => {},
            }
        }
        None
    }

    /// The VNI stroke key, typed and now ending the word.
    pub fn try_vni_consonant_transform(&mut self, ch: char) -> (r: Option<KeyTransformAction>)
        ensures
            step_matches(
                old(self),
                final(self),
                r,
                vni_consonant_transform_spec(old(self).word(), ch),
            ),
    {
        if ch != '9' {
            return None;
        }
        self.try_d_stroke('9')
    }

    /// A VNI shape key, typed and now ending the word.
    pub fn try_vni_vowel_transform(&mut self, ch: char) -> (r: Option<KeyTransformAction>)
        ensures
            step_matches(
                old(self),
                final(self),
                r,
                vni_vowel_transform_spec(old(self).word(), ch, old(self).auto_fix_tone),
            ),
    {
        if !is_vni_vowel_transform_key(ch) {
            return None;
        }
        if self.buffer.len() == 0 {
            return None;
        }
        if ch == '7' {
            let r = self.try_compound_chain('7');
            if r.is_some() {
                return r;
            }
        }
        let trigger_index = self.buffer.len() - 1;
        let ghost w = self.buffer@.take(trigger_index as int);
        assert(w =~= self.buffer@.drop_last());
        let vowel_index = match self.find_last_vni_transformable_vowel(
            ch,
            trigger_index,
            FREE_TRANSFORM_WINDOW,
        ) {
            Some(i) => i,
            None => { return None; },
        };
        let vowel = self.buffer[vowel_index];
        let result = match vni_apply_shape_for_key(vowel, ch) {
            Some(c) => c,
            None => { return None; },
        };
        self.buffer.pop();
        self.buffer[vowel_index] = result;
        assert(self.buffer@ =~= w.update(vowel_index as int, result));
        Some(self.finish_shape(vowel_index, ch, WTransformKind::Unset))
    }

    /// A VNI tone key, typed and now ending the word. The tone is put on
    /// or taken off only where the word before the key forms a syllable,
    /// and the word with the tone forms one too; where the word before the
    /// key forms none, the key is refused and the word goes into foreign
    /// mode.
    pub fn try_vni_tone_mark(&mut self, ch: char) -> (r: Option<KeyTransformAction>)
        ensures
            step_matches_or(
                old(self),
                final(self),
                r,
                vni_tone_mark_spec(old(self).word(), ch, old(self).free_tone_placement),
                vni_tone_refusal_spec(old(self).word(), ch, old(self).free_tone_placement),
            ),
            is_vni_tone_key_spec(ch) && old(self).buffer@.len() > 0 && !syllable_ok(
                old(self).buffer@.take(old(self).buffer@.len() - 1),
                old(self).free_tone_placement,
            ) ==> r is None && final(self).foreign_mode,
            r is Some ==> final(self).foreign_mode || syllable_ok(
                final(self).buffer@,
                old(self).free_tone_placement,
            ),
    {
        if !is_vni_tone_key(ch) {
            return None;
        }
        match vni_tone_key_to_internal(ch) {
            Some(internal_tone_key) => self.apply_tone_mark_internal(internal_tone_key, ch),
            None => None,
        }
    }

    /// The nearest vowel before `before` that takes the shape of `key`,
    /// with at most `max_distance` characters between the two.
    pub fn find_last_vni_transformable_vowel(
        &self,
        key: char,
        before: usize,
        max_distance: usize,
    ) -> (r: Option<usize>)
        requires
            before <= self.buffer@.len(),
        ensures
            r is Some <==> last_hit(
                self.buffer@,
                before as int,
                window_floor(before as int, max_distance as int),
                Probe::VniShape(key),
            ) is Some,
            r is Some ==> r->0 == last_hit(
                self.buffer@,
                before as int,
                window_floor(before as int, max_distance as int),
                Probe::VniShape(key),
            )->0,
            r is Some ==> r->0 < before && vni_apply_shape_for_key_spec(
                self.buffer@[r->0 as int],
                key,
            ) is Some,
    {
        find_last_hit(&self.buffer, before, window_start(before, max_distance), Probe::VniShape(key))
    }

    /// The last vowel before `before` that carries the shape of `key`, and
    /// the vowel without it.
    pub fn find_last_vni_untransformable_vowel(&self, key: char, before: usize) -> (r: Option<
        (usize, char),
    >)
        requires
            before <= self.buffer@.len(),
        ensures
            match r {
                Some((index, unshaped)) => {
                    &&& last_hit(self.buffer@, before as int, 0, Probe::VniEscape(key)) == Some(
                        index as int,
                    )
                    &&& index < before
                    &&& vni_escape_char_for_key_spec(self.buffer@[index as int], key) == Some(
                        unshaped,
                    )
                },
                None => last_hit(self.buffer@, before as int, 0, Probe::VniEscape(key)) is None,
            },
    {
        match find_last_hit(&self.buffer, before, 0, Probe::VniEscape(key)) {
            Some(index) => match vni_escape_char_for_key(self.buffer[index], key) {
                Some(unshaped) => Some((index, unshaped)),
                None => None,
            },
            None => None,
        }
    }
}

} // verus!
