use vstd::prelude::*;
use crate::classify::{is_escape_candidate, is_escape_candidate_spec};
use crate::common::{InputMethod, KeyTransformAction, Outcome, WordModel, WTransformKind};
use crate::compound::{compound_chain_spec, escape_compound_spec, finish_shape_spec};
use crate::diacritics::{
    apply_shape_preserving_tone, apply_shape_preserving_tone_spec, apply_telex_w_preserving_tone,
    apply_telex_w_preserving_tone_spec, base_lower, base_lower_spec, escape_shape_preserving_tone,
    escape_shape_preserving_tone_spec, split_spec, split_vowel_and_tone, VowelShape,
};
use crate::engine::{
    escaped, FREE_TRANSFORM_WINDOW, step_matches, step_matches_or, transformed, VitypeEngine,
};
use crate::letters::{
    is_ascii_digit, is_ascii_digit_spec, is_ascii_punctuation, is_ascii_punctuation_spec,
    is_ascii_whitespace, is_ascii_whitespace_spec, is_upper, is_upper_spec, lemma_lower_idempotent,
    lower_char, lower_char_spec,
};
use crate::search::{
    find_last_hit, last_hit, lemma_last_hit, probe_hit, window_floor, window_start, Probe,
};
use crate::shape_escape::shape_escape_spec;
use crate::stroke::{d_stroke_spec, stroke_escape_spec};
use crate::syllable::{is_vowel, is_vowel_spec, syllable_ok};
use crate::tone_mark::{tone_escape_spec, tone_mark_spec, tone_refusal_spec};

verus! {

/// The Telex tone letters, in lower case: the five tones and `z`, which
/// removes a tone.
pub open spec fn is_telex_tone_letter(l: char) -> bool {
    l == 's' || l == 'f' || l == 'r' || l == 'x' || l == 'j' || l == 'z'
}

/// Whether a key is a Telex tone key, in either case.
pub open spec fn is_tone_key_spec(ch: char) -> bool {
    is_telex_tone_letter(lower_char_spec(ch))
}

/// In Telex a word ends at ASCII white space, punctuation and digits.
pub open spec fn is_telex_word_boundary_spec(ch: char) -> bool {
    is_ascii_whitespace_spec(ch) || is_ascii_punctuation_spec(ch) || is_ascii_digit_spec(ch)
}

/// The vowel `ch` without the shape that the Telex key types: `w` takes
/// off a breve or else a horn, and `a`, `e`, `o` take the circumflex off
/// their own letter.
pub open spec fn telex_escape_char_for_key_spec(ch: char, key_lower: char) -> Option<char> {
    if key_lower == 'w' {
        match escape_shape_preserving_tone_spec(ch, VowelShape::Breve) {
            Some(c) => Some(c),
            None => escape_shape_preserving_tone_spec(ch, VowelShape::Horn),
        }
    } else if (key_lower == 'a' && base_lower_spec(ch) == 'â') || (key_lower == 'e'
        && base_lower_spec(ch) == 'ê') || (key_lower == 'o' && base_lower_spec(ch) == 'ô') {
        escape_shape_preserving_tone_spec(ch, VowelShape::Circumflex)
    } else {
        None
    }
}

/// Whether a key is a Telex tone key, in either case.
pub fn is_tone_key(ch: char) -> (r: bool)
    ensures
        r == is_tone_key_spec(ch),
{
    let l = lower_char(ch);
    l == 's' || l == 'f' || l == 'r' || l == 'x' || l == 'j' || l == 'z'
}

/// In Telex a word ends at ASCII white space, punctuation and digits.
pub fn is_telex_word_boundary(ch: char) -> (r: bool)
    ensures
        r == is_telex_word_boundary_spec(ch),
{
    is_ascii_whitespace(ch) || is_ascii_punctuation(ch) || is_ascii_digit(ch)
}

/// The vowel `ch` without the shape that the Telex key types, its tone
/// kept.
pub fn telex_escape_char_for_key(ch: char, key_lower: char) -> (r: Option<char>)
    ensures
        r == telex_escape_char_for_key_spec(ch, key_lower),
        r is Some ==> is_upper_spec(r->0) == is_upper_spec(ch),
        r is Some ==> split_spec(r->0).1 == split_spec(ch).1,
{
    match key_lower {
        'w' => {
            match escape_shape_preserving_tone(ch, VowelShape::Breve) {
                Some(c) => Some(c),
                None => escape_shape_preserving_tone(ch, VowelShape::Horn),
            }
        },
        'a' | 'e' | 'o' => {
            let (base, _) = split_vowel_and_tone(ch);
            let base_lower = lower_char(base);
            let expected = match key_lower {
                'a' => 'â',
                'e' => 'ê',
                _ => 'ô',
            };
            if base_lower != expected {
                return None;
            }
            escape_shape_preserving_tone(ch, VowelShape::Circumflex)
        },
        _ => None,
    }
}

/// The vowels that end a cluster as glides: a circumflex key may pass
/// over them on its way back to its own letter.
pub open spec fn is_glide_spec(ch: char) -> bool {
    base_lower_spec(ch) == 'i' || base_lower_spec(ch) == 'u' || base_lower_spec(ch) == 'y'
}

/// The nearest position in `[lo, before)` that holds the plain vowel
/// `key_lower`. The way back passes over consonants and, until the first
/// consonant, over glides; any other vowel stops it. `crossed` says that a
/// consonant has been passed.
pub open spec fn telex_match(
    w: Seq<char>,
    before: int,
    lo: int,
    key_lower: char,
    crossed: bool,
) -> Option<int>
    decreases before,
{
    if before <= lo || before <= 0 || before > w.len() {
        None
    } else if base_lower_spec(w[before - 1]) == key_lower {
        Some(before - 1)
    } else if is_vowel_spec(w[before - 1]) {
        if crossed || !is_glide_spec(w[before - 1]) {
            None
        } else {
            telex_match(w, before - 1, lo, key_lower, false)
        }
    } else {
        telex_match(w, before - 1, lo, key_lower, true)
    }
}

/// What `telex_match` finds lies in range and holds the vowel of the key.
pub proof fn lemma_telex_match(w: Seq<char>, before: int, lo: int, key_lower: char, crossed: bool)
    requires
        0 <= lo,
        before <= w.len(),
    ensures
        telex_match(w, before, lo, key_lower, crossed) is Some ==> lo <= telex_match(
            w,
            before,
            lo,
            key_lower,
            crossed,
        )->0 < before && base_lower_spec(w[telex_match(w, before, lo, key_lower, crossed)->0])
            == key_lower,
    decreases before,
{
    if before > lo && before > 0 && base_lower_spec(w[before - 1]) != key_lower {
        if is_vowel_spec(w[before - 1]) {
            if !crossed && is_glide_spec(w[before - 1]) {
                lemma_telex_match(w, before - 1, lo, key_lower, false);
            }
        } else {
            lemma_telex_match(w, before - 1, lo, key_lower, true);
        }
    }
}

/// The key `w` pressed again after it was typed alone: the `ư` that it
/// made, last in the word, becomes the letter `w` in its case.
pub open spec fn standalone_w_escape_spec(w: Seq<char>) -> Option<Outcome> {
    if w.len() > 0 && (w.last() == 'ư' || w.last() == 'Ư') {
        Some(escaped(w.len() as int, w.update(w.len() - 1, if w.last() == 'Ư' {
            'W'
        } else {
            'w'
        }), w.len() - 1))
    } else {
        None
    }
}

/// A shape key pressed again where the last character of the word
/// carries its shape: the shape comes off, and the key follows as a
/// letter.
pub open spec fn tail_shape_escape_spec(w: Seq<char>, key_lower: char, ch: char) -> Option<
    Outcome,
> {
    if w.len() > 0 && telex_escape_char_for_key_spec(w.last(), key_lower) is Some {
        Some(
            escaped(
                w.len() as int,
                w.update(
                    w.len() - 1,
                    telex_escape_char_for_key_spec(w.last(), key_lower)->0,
                ).push(ch),
                w.len() - 1,
            ),
        )
    } else {
        None
    }
}

/// A Telex key pressed again right after it changed the word, in either
/// case. The key `w` undoes what it did last: a `ư` typed alone becomes
/// `w`, a compound rule is undone, a breve or horn comes off. `d` takes
/// the stroke off a final `đ`; `a`, `e`, `o` take the circumflex off the
/// last vowel that carries theirs; a tone key takes its tone off. But for
/// the `ư` typed alone the key follows as a letter.
pub open spec fn telex_escape_spec(word: WordModel, ch: char) -> Option<Outcome> {
    let w = word.buffer;
    let l = lower_char_spec(ch);
    let by_w = if l != 'w' {
        None
    } else {
        match word.last_w_transform_kind {
            WTransformKind::Standalone => standalone_w_escape_spec(w),
            WTransformKind::Unset => shape_escape_spec(w, Probe::TelexEscape('w'), ch),
            _ => escape_compound_spec(word, ch),
        }
    };
    if !is_escape_candidate_spec(word.last_transform_key, ch, InputMethod::Telex) {
        None
    } else if by_w is Some {
        by_w
    } else if l == 'd' && stroke_escape_spec(w, ch) is Some {
        stroke_escape_spec(w, ch)
    } else if tail_shape_escape_spec(w, l, ch) is Some {
        tail_shape_escape_spec(w, l, ch)
    } else if (l == 'a' || l == 'e' || l == 'o') && shape_escape_spec(w, Probe::TelexEscape(l), ch)
        is Some {
        shape_escape_spec(w, Probe::TelexEscape(l), ch)
    } else if is_telex_tone_letter(l) {
        tone_escape_spec(w, ch, l)
    } else {
        None
    }
}

/// The Telex stroke key, `d` in either case, on a word that ends with it.
pub open spec fn telex_consonant_transform_spec(word: WordModel, ch: char) -> Option<Outcome> {
    if lower_char_spec(ch) == 'd' {
        d_stroke_spec(word, 'd')
    } else {
        None
    }
}

/// A Telex tone key on a word that ends with it.
pub open spec fn telex_tone_mark_spec(word: WordModel, ch: char, relaxed: bool) -> Option<Outcome> {
    if is_tone_key_spec(ch) {
        tone_mark_spec(word, lower_char_spec(ch), ch, relaxed)
    } else {
        None
    }
}

/// Where the Telex key `w` at `before` finds its vowel: the nearest
/// position that takes a breve or horn from it, with at most
/// `FREE_TRANSFORM_WINDOW` characters between the two.
pub open spec fn telex_w_site(w: Seq<char>, before: int) -> Option<int> {
    last_hit(w, before, window_floor(before, FREE_TRANSFORM_WINDOW as int), Probe::TelexW)
}

/// A Telex shape key on a word whose last character is the key. The key
/// `w` first tries the compound rules, then puts a breve or horn on the
/// nearest vowel within the window that takes one, and where there is
/// none becomes `ư` itself. The keys `a`, `e`, `o` put a circumflex on their own letter
/// where the way back to it is free.
pub open spec fn telex_vowel_transform_spec(word: WordModel, ch: char, auto_fix: bool) -> Option<
    Outcome,
> {
    let n = word.buffer.len() - 1;
    let w = word.buffer.take(n);
    let l = lower_char_spec(ch);
    if l == 'w' {
        if word.buffer.len() == 0 {
            None
        } else if compound_chain_spec(word, 'w', auto_fix) is Some {
            compound_chain_spec(word, 'w', auto_fix)
        } else {
            match telex_w_site(word.buffer, n) {
                Some(i) => Some(
                    transformed(
                        word,
                        n,
                        w.update(i, apply_telex_w_preserving_tone_spec(word.buffer[i])->0),
                        'w',
                        WTransformKind::Unset,
                        i,
                    ),
                ),
                None => Some(
                    transformed(
                        word,
                        n,
                        w.push(if crate::letters::is_upper_spec(ch) {
                            'Ư'
                        } else {
                            'ư'
                        }),
                        'w',
                        WTransformKind::Standalone,
                        n,
                    ),
                ),
            }
        }
    } else if word.buffer.len() < 2 || !(l == 'a' || l == 'e' || l == 'o') {
        None
    } else {
        match telex_match(word.buffer, n, window_floor(n, FREE_TRANSFORM_WINDOW as int), l, false) {
            Some(i) => match apply_shape_preserving_tone_spec(
                word.buffer[i],
                VowelShape::Circumflex,
            ) {
                Some(c) => Some(
                    finish_shape_spec(word, n, w.update(i, c), ch, WTransformKind::Unset, i, auto_fix),
                ),
                None => None,
            },
            None => None,
        }
    }
}

/// The word after a Telex key that the tone step did not take: a tone
/// key on a word that forms no syllable puts it into foreign mode.
pub open spec fn telex_tone_refusal_spec(word: WordModel, ch: char, relaxed: bool) -> WordModel {
    if is_tone_key_spec(ch) {
        tone_refusal_spec(word, relaxed)
    } else {
        word
    }
}

impl VitypeEngine {
    /// The Telex key `w` pressed again after it was typed alone: the `ư`
    /// that it made becomes the letter `w`.
    pub fn escape_standalone_w(&mut self, ch_lower: char) -> (r: Option<KeyTransformAction>)
        ensures
            step_matches(
                old(self),
                final(self),
                r,
                standalone_w_escape_spec(old(self).buffer@),
            ),
    {
        let n = self.buffer.len();
        let ghost w = self.buffer@;
        if n == 0 {
            return None;
        }
        let last_char = self.buffer[n - 1];
        if last_char == 'ư' || last_char == 'Ư' {
            let replacement = if last_char == 'Ư' {
                'W'
            } else {
                'w'
            };
            self.buffer[n - 1] = replacement;
            self.clear_last_transform_and_suppress(ch_lower);
            assert(self.buffer@ =~= w.update(n - 1, replacement));
            Some(self.action_from(n, n - 1))
        } else {
            None
        }
    }

    /// Takes the shape of the key off the last character of the word, where
    /// it carries it, and appends `ch` as a letter.
    pub fn escape_tail_shape(&mut self, ch: char, ch_lower: char) -> (r: Option<KeyTransformAction>)
        ensures
            step_matches(
                old(self),
                final(self),
                r,
                tail_shape_escape_spec(old(self).buffer@, ch_lower, ch),
            ),
    {
        let n = self.buffer.len();
        let ghost w = self.buffer@;
        if n == 0 {
            return None;
        }
        match telex_escape_char_for_key(self.buffer[n - 1], ch_lower) {
            Some(unshaped) => {
                self.buffer[n - 1] = unshaped;
                self.buffer.push(ch);
                self.clear_last_transform_and_suppress(ch_lower);
                assert(self.buffer@ =~= w.update(n - 1, unshaped).push(ch));
                Some(self.action_from(n, n - 1))
            },
            None => None,
        }
    }

    /// A Telex key that may repeat the key of the last transform; the word
    /// does not hold the key yet.
    pub fn try_telex_escape_sequence(&mut self, ch: char) -> (r: Option<KeyTransformAction>)
        ensures
            step_matches(old(self), final(self), r, telex_escape_spec(old(self).word(), ch)),
    {
        if !is_escape_candidate(self.last_transform_key, ch, InputMethod::Telex) {
            return None;
        }
        let ch_lower = lower_char(ch);
        if ch_lower == 'w' {
            let r = match self.last_w_transform_kind {
                WTransformKind::Standalone => self.escape_standalone_w(ch_lower),
                WTransformKind::Unset => match self.find_last_untransformable_vowel(
                    ch_lower,
                    self.buffer.len(),
                ) {
                    Some((index, unshaped)) => Some(
                        self.undo_shape_at(index, unshaped, ch, ch_lower),
                    ),
                    None => None,
                },
                _ => self.try_escape_compound_horn_key(ch, ch_lower),
            };
            if r.is_some() {
                return r;
            }
        }
        if ch_lower == 'd' {
            let r = self.escape_final_stroke(ch, ch_lower);
            if r.is_some() {
                return r;
            }
        }
        let r = self.escape_tail_shape(ch, ch_lower);
        if r.is_some() {
            return r;
        }
        if ch_lower == 'a' || ch_lower == 'e' || ch_lower == 'o' {
            match self.find_last_untransformable_vowel(ch_lower, self.buffer.len()) {
                Some((index, unshaped)) => {
                    return Some(self.undo_shape_at(index, unshaped, ch, ch_lower));
                },
                None => {},
            }
        }
        if is_tone_key(ch) {
            let r = self.try_escape_repeated_tone_key(ch, ch_lower, ch_lower);
            if r.is_some() {
                return r;
            }
        }
        None
    }

    /// The Telex stroke key, typed and now ending the word.
    pub fn try_telex_consonant_transform(&mut self, ch: char) -> (r: Option<KeyTransformAction>)
        ensures
            step_matches(
                old(self),
                final(self),
                r,
                telex_consonant_transform_spec(old(self).word(), ch),
            ),
    {
        let ch_lower = lower_char(ch);
        if ch_lower != 'd' {
            return None;
        }
        self.try_d_stroke('d')
    }

    /// The Telex key `w` where no compound rule applies.
    fn telex_w_simple(&mut self, ch: char) -> (r: KeyTransformAction)
        requires
            old(self).buffer@.len() > 0,
        ensures
            final(self).same_settings(old(self)),
            (Outcome { word: final(self).word(), rewrite: r@ }) == (match telex_w_site(
                old(self).buffer@,
                old(self).buffer@.len() - 1,
            ) {
                Some(i) => transformed(
                    old(self).word(),
                    old(self).buffer@.len() - 1,
                    old(self).buffer@.drop_last().update(
                        i,
                        apply_telex_w_preserving_tone_spec(old(self).buffer@[i])->0,
                    ),
                    'w',
                    WTransformKind::Unset,
                    i,
                ),
                None => transformed(
                    old(self).word(),
                    old(self).buffer@.len() - 1,
                    old(self).buffer@.drop_last().push(
                        if crate::letters::is_upper_spec(ch) {
                            'Ư'
                        } else {
                            'ư'
                        },
                    ),
                    'w',
                    WTransformKind::Standalone,
                    old(self).buffer@.len() - 1,
                ),
            }),
    {
        let n = self.buffer.len() - 1;
        let ghost w = self.buffer@.drop_last();
        match self.find_last_transformable_vowel(n) {
            Some((index, result)) => {
                self.buffer.pop();
                self.buffer[index] = result;
                self.last_transform_key = Some('w');
                self.last_w_transform_kind = WTransformKind::Unset;
                assert(self.buffer@ =~= w.update(index as int, result));
                self.action_from(n, index)
            },
            None => {
                let replacement = if is_upper(ch) {
                    'Ư'
                } else {
                    'ư'
                };
                self.buffer.pop();
                self.buffer.push(replacement);
                self.last_transform_key = Some('w');
                self.last_w_transform_kind = WTransformKind::Standalone;
                assert(self.buffer@ =~= w.push(replacement));
                self.action_from(n, n)
            },
        }
    }

    /// A Telex shape key, typed and now ending the word.
    pub fn try_telex_vowel_transform(&mut self, ch: char) -> (r: Option<KeyTransformAction>)
        ensures
            step_matches(
                old(self),
                final(self),
                r,
                telex_vowel_transform_spec(old(self).word(), ch, old(self).auto_fix_tone),
            ),
    {
        let ch_lower = lower_char(ch);
        if ch_lower == 'w' {
            if self.buffer.len() == 0 {
                return None;
            }
            let r = self.try_compound_chain('w');
            if r.is_some() {
                return r;
            }
            return Some(self.telex_w_simple(ch));
        }
        if self.buffer.len() < 2 {
            return None;
        }
        if ch_lower == 'a' || ch_lower == 'e' || ch_lower == 'o' {
            let trigger_index = self.buffer.len() - 1;
            let ghost w = self.buffer@.take(trigger_index as int);
            assert(w =~= self.buffer@.drop_last());
            match self.find_last_matching_vowel_index(ch, trigger_index, FREE_TRANSFORM_WINDOW) {
                Some(vowel_index) => {
                    let vowel = self.buffer[vowel_index];
                    match apply_shape_preserving_tone(vowel, VowelShape::Circumflex) {
                        Some(result) => {
                            self.buffer.pop();
                            self.buffer[vowel_index] = result;
                            assert(self.buffer@ =~= w.update(vowel_index as int, result));
                            return Some(
                                self.finish_shape(vowel_index, ch, WTransformKind::Unset),
                            );
                        },
                        None => {
                            return None;
                        },
                    }
                },
                None => {},
            }
        }
        None
    }

    /// A Telex tone key, typed and now ending the word. The tone is put
    /// on or taken off only where the word before the key forms a syllable,
    /// and the word with the tone forms one too; where the word before the
    /// key forms none, the key is refused and the word goes into foreign
    /// mode.
    pub fn try_telex_tone_mark(&mut self, ch: char) -> (r: Option<KeyTransformAction>)
        ensures
            step_matches_or(
                old(self),
                final(self),
                r,
                telex_tone_mark_spec(old(self).word(), ch, old(self).free_tone_placement),
                telex_tone_refusal_spec(old(self).word(), ch, old(self).free_tone_placement),
            ),
            is_tone_key_spec(ch) && old(self).buffer@.len() > 0 && !syllable_ok(
                old(self).buffer@.take(old(self).buffer@.len() - 1),
                old(self).free_tone_placement,
            ) ==> r is None && final(self).foreign_mode,
            r is Some ==> final(self).foreign_mode || syllable_ok(
                final(self).buffer@,
                old(self).free_tone_placement,
            ),
    {
        let ch_lower = lower_char(ch);
        proof {
            lemma_lower_idempotent(ch);
        }
        if !is_tone_key(ch_lower) {
            return None;
        }
        self.apply_tone_mark_internal(ch_lower, ch)
    }

    /// The nearest position before `before` that holds the plain vowel of
    /// the key `ch`, with at most `max_distance` characters between the two
    /// and nothing but consonants and closing glides on the way.
    pub fn find_last_matching_vowel_index(&self, ch: char, before: usize, max_distance: usize) -> (r:
        Option<usize>)
        requires
            before <= self.buffer@.len(),
        ensures
            r is Some <==> telex_match(
                self.buffer@,
                before as int,
                window_floor(before as int, max_distance as int),
                lower_char_spec(ch),
                false,
            ) is Some,
            r is Some ==> r->0 == telex_match(
                self.buffer@,
                before as int,
                window_floor(before as int, max_distance as int),
                lower_char_spec(ch),
                false,
            )->0,
            r is Some ==> r->0 < before,
    {
        let key_lower = lower_char(ch);
        let lo = window_start(before, max_distance);
        proof {
            lemma_telex_match(self.buffer@, before as int, lo as int, key_lower, false);
        }
        let mut index: usize = before;
        let mut crossed = false;
        while index > lo
            invariant
                index <= before <= self.buffer@.len(),
                lo == window_floor(before as int, max_distance as int),
                key_lower == lower_char_spec(ch),
                telex_match(self.buffer@, before as int, lo as int, key_lower, false) == telex_match(
                    self.buffer@,
                    index as int,
                    lo as int,
                    key_lower,
                    crossed,
                ),
            decreases index,
        {
            index -= 1;
            let c = self.buffer[index];
            let b = base_lower(c);
            if b == key_lower {
                return Some(index);
            }
            if is_vowel(c) {
                if crossed || !(b == 'i' || b == 'u' || b == 'y') {
                    return None;
                }
            } else {
                crossed = true;
            }
        }
        None
    }

    /// The last vowel before `before` that carries the shape of the key,
    /// and the vowel without it.
    pub fn find_last_untransformable_vowel(&self, key_lower: char, before: usize) -> (r: Option<
        (usize, char),
    >)
        requires
            before <= self.buffer@.len(),
        ensures
            match r {
                Some((index, unshaped)) => {
                    &&& last_hit(self.buffer@, before as int, 0, Probe::TelexEscape(key_lower))
                        == Some(index as int)
                    &&& index < before
                    &&& telex_escape_char_for_key_spec(self.buffer@[index as int], key_lower)
                        == Some(unshaped)
                },
                None => last_hit(self.buffer@, before as int, 0, Probe::TelexEscape(key_lower))
                    is None,
            },
    {
        match find_last_hit(&self.buffer, before, 0, Probe::TelexEscape(key_lower)) {
            Some(index) => match telex_escape_char_for_key(self.buffer[index], key_lower) {
                Some(unshaped) => Some((index, unshaped)),
                None => None,
            },
            None => None,
        }
    }

    /// The nearest vowel before `before` that the key `w` changes or
    /// accepts, with at most `FREE_TRANSFORM_WINDOW` characters between the
    /// two, and what the key makes of it.
    pub fn find_last_transformable_vowel(&self, before: usize) -> (r: Option<(usize, char)>)
        requires
            before <= self.buffer@.len(),
        ensures
            match r {
                Some((index, result)) => {
                    &&& telex_w_site(self.buffer@, before as int) == Some(index as int)
                    &&& index < before
                    &&& before - 1 - index <= FREE_TRANSFORM_WINDOW
                    &&& apply_telex_w_preserving_tone_spec(self.buffer@[index as int]) == Some(
                        result,
                    )
                    &&& forall|j: int|
                        index < j < before ==> apply_telex_w_preserving_tone_spec(
                            #[trigger] self.buffer@[j],
                        ) is None
                    &&& crate::letters::is_upper_spec(result) == crate::letters::is_upper_spec(
                        self.buffer@[index as int],
                    )
                },
                None => {
                    &&& telex_w_site(self.buffer@, before as int) is None
                    &&& forall|j: int|
                        0 <= j < before && before - 1 - j <= FREE_TRANSFORM_WINDOW
                            ==> apply_telex_w_preserving_tone_spec(#[trigger] self.buffer@[j])
                            is None
                },
            },
    {
        let lo = window_start(before, FREE_TRANSFORM_WINDOW);
        proof {
            lemma_last_hit(self.buffer@, before as int, lo as int, Probe::TelexW);
            assert forall|j: int| lo <= j < before implies (probe_hit(
                self.buffer@,
                j,
                Probe::TelexW,
            ) == (apply_telex_w_preserving_tone_spec(#[trigger] self.buffer@[j]) is Some)) by {}
        }
        match find_last_hit(&self.buffer, before, lo, Probe::TelexW) {
            Some(index) => match apply_telex_w_preserving_tone(self.buffer[index]) {
                Some(result) => Some((index, result)),
                None => None,
            },
            None => None,
        }
    }
}

} // verus!
