use vstd::prelude::*;
use crate::common::{rewrite_at, KeyTransformAction, Outcome, WordModel, WTransformKind};
use crate::diacritics::{
    apply_tone, apply_tone_spec, is_tone_letter, lemma_toned_of_split, split_spec,
    split_vowel_and_tone, toned_spec,
};
use crate::engine::{escaped, keeps_case, step_matches, step_matches_or, transformed, VitypeEngine};
use crate::syllable::{
    cluster_bounds, cluster_end, cluster_start, is_syllable_ok, lemma_cluster_bounds,
    lemma_same_letters_same_syllable, syllable_ok,
};
use crate::tone::{
    find_last_with_tone, find_toned, last_with_tone, lemma_first_toned_from, lemma_last_with_tone,
    tone_target, tone_target_index, toned_index,
};

verus! {

/// The smaller of two integers.
pub open spec fn min_int(a: int, b: int) -> int {
    if a < b {
        a
    } else {
        b
    }
}

/// Moving the tone to the vowel that should carry it: the word after the
/// move and the first position that changed, or `None` where the cluster
/// has no tone or the tone sits where it belongs.
pub open spec fn reposition_spec(w: Seq<char>) -> Option<(Seq<char>, int)> {
    let t = toned_index(w);
    let g = tone_target(w);
    if cluster_start(w) >= cluster_end(w) || t >= cluster_end(w) || t == g {
        None
    } else {
        match apply_tone_spec(split_spec(w[g]).0, split_spec(w[t]).1) {
            Some(c) => Some((w.update(t, split_spec(w[t]).0).update(g, c), min_int(t, g))),
            None => None,
        }
    }
}

/// Pressing a tone key again: the last vowel that carries the tone loses
/// it, and the key follows as a letter.
pub open spec fn tone_escape_spec(w: Seq<char>, ch: char, tone: char) -> Option<Outcome> {
    match last_with_tone(w, w.len() as int, tone) {
        Some(i) => Some(escaped(w.len() as int, w.update(i, split_spec(w[i]).0).push(ch), i)),
        None => None,
    }
}

/// A tone key on a word whose last character is the key itself. The word
/// before the key must form a syllable, a legal one unless `relaxed`, and
/// have a vowel cluster. `z` takes
/// the tone off; a tone letter puts its tone on the vowel that should
/// carry it, in place of any tone the cluster had; the tone that is
/// already there is taken off and the key kept as a letter.
pub open spec fn tone_mark_spec(word: WordModel, tone_key: char, ch: char, relaxed: bool) -> Option<
    Outcome,
> {
    let n = word.buffer.len() - 1;
    let w = word.buffer.take(n);
    let t = toned_index(w);
    let g = tone_target(w);
    if word.buffer.len() == 0 || !syllable_ok(w, relaxed) || cluster_start(w) >= cluster_end(w) {
        None
    } else if tone_key == 'z' {
        if t >= cluster_end(w) {
            None
        } else {
            Some(transformed(word, n, w.update(t, split_spec(w[t]).0), ch, WTransformKind::Unset, t))
        }
    } else if !is_tone_letter(tone_key) {
        None
    } else if t < cluster_end(w) && split_spec(w[t]).1 == Some(tone_key) {
        tone_escape_spec(w, ch, tone_key)
    } else {
        match toned_spec(split_spec(w[g]).0, tone_key) {
            Some(c) => {
                let cleared = if t < cluster_end(w) {
                    w.update(t, split_spec(w[t]).0)
                } else {
                    w
                };
                Some(
                    transformed(
                        word,
                        n,
                        cleared.update(g, c),
                        ch,
                        WTransformKind::Unset,
                        if t < g {
                            t
                        } else {
                            g
                        },
                    ),
                )
            },
            None => None,
        }
    }
}

/// The word after a tone key that was not taken, on a word whose last
/// character is the key: where the word before the key forms no syllable,
/// the tone is refused and the word goes into foreign mode; else nothing
/// changes.
pub open spec fn tone_refusal_spec(word: WordModel, relaxed: bool) -> WordModel {
    WordModel {
        buffer: word.buffer,
        last_transform_key: word.last_transform_key,
        last_w_transform_kind: word.last_w_transform_kind,
        foreign_mode: word.foreign_mode || (word.buffer.len() > 0 && !syllable_ok(
            word.buffer.take(word.buffer.len() - 1),
            relaxed,
        )),
    }
}

impl VitypeEngine {
    /// Moves the tone of the word to the vowel that should carry it, where
    /// it sits on another. The action rewrites the display from the first
    /// position that changed, or from `min_start` where that comes first;
    /// with `literal_appended` the last character of the word is a key that
    /// the display does not show yet.
    pub fn reposition_tone_if_needed(
        &mut self,
        literal_appended: bool,
        min_start: Option<usize>,
    ) -> (r: Option<KeyTransformAction>)
        ensures
            final(self).same_settings(old(self)),
            final(self).last_transform_key == old(self).last_transform_key,
            final(self).last_w_transform_kind == old(self).last_w_transform_kind,
            final(self).foreign_mode == old(self).foreign_mode,
            final(self).buffer@.len() == old(self).buffer@.len(),
            keeps_case(old(self).buffer@, final(self).buffer@),
            match reposition_spec(old(self).buffer@) {
                Some((b, s)) => {
                    let display_len = if literal_appended {
                        old(self).buffer@.len() - 1
                    } else {
                        old(self).buffer@.len() as int
                    };
                    let start = match min_start {
                        Some(m) => min_int(s, m as int),
                        None => s,
                    };
                    &&& final(self).buffer@ == b
                    &&& r is Some
                    &&& r->0@ == rewrite_at(display_len, b, start)
                    &&& 0 <= start <= s < display_len
                    &&& forall|j: int| 0 <= j < s ==> b[j] == old(self).buffer@[j]
                },
                None => r is None && final(self).buffer@ == old(self).buffer@,
            },
    {
        let n = self.buffer.len();
        let ghost w = self.buffer@;
        assert(w.take(n as int) =~= w);
        proof {
            lemma_cluster_bounds(w);
        }
        let (cs, ce) = cluster_bounds(&self.buffer, n);
        if cs >= ce {
            return None;
        }
        let t = find_toned(&self.buffer, n, cs, ce);
        proof {
            lemma_first_toned_from(w, cs as int, ce as int);
        }
        if t >= ce {
            return None;
        }
        let g = tone_target_index(&self.buffer, n, cs, ce);
        if t == g {
            return None;
        }
        let (base_t, tone) = split_vowel_and_tone(self.buffer[t]);
        let (base_g, _) = split_vowel_and_tone(self.buffer[g]);
        let c = match apply_tone(base_g, tone) {
            Some(c) => c,
            None => { return None; },
        };
        self.buffer[t] = base_t;
        self.buffer[g] = c;
        let first = if t < g {
            t
        } else {
            g
        };
        let start = match min_start {
            Some(m) => if m < first {
                m
            } else {
                first
            },
            None => first,
        };
        let display_len = if literal_appended {
            n - 1
        } else {
            n
        };
        assert(self.buffer@ =~= w.update(t as int, base_t).update(g as int, c));
        Some(self.action_from(display_len, start))
    }

    /// Pressing a tone key again: takes the tone off the last vowel that
    /// carries it, appends the key as a letter, and makes the rest of the
    /// word literal.
    pub fn try_escape_repeated_tone_key(&mut self, ch: char, tone_key: char, suppress_key: char) -> (r:
        Option<KeyTransformAction>)
        ensures
            step_matches(
                old(self),
                final(self),
                r,
                tone_escape_spec(old(self).buffer@, ch, tone_key),
            ),
    {
        let n = self.buffer.len();
        let ghost w = self.buffer@;
        proof {
            lemma_last_with_tone(w, n as int, tone_key);
        }
        match find_last_with_tone(&self.buffer, n, tone_key) {
            Some(index) => {
                let (base, _) = split_vowel_and_tone(self.buffer[index]);
                self.buffer[index] = base;
                self.buffer.push(ch);
                self.clear_last_transform_and_suppress(suppress_key);
                assert(self.buffer@ =~= w.update(index as int, base).push(ch));
                Some(self.action_from(n, index))
            },
            None => None,
        }
    }

    /// Takes the key off the end of the word and the tone off position `t`.
    fn strip_tone_at(&mut self, t: usize, ch: char) -> (r: KeyTransformAction)
        requires
            old(self).buffer@.len() > 0,
            t < old(self).buffer@.len() - 1,
        ensures
            final(self).same_settings(old(self)),
            final(self).foreign_mode == old(self).foreign_mode,
            final(self).last_transform_key == Some(ch),
            final(self).last_w_transform_kind == WTransformKind::Unset,
            final(self).buffer@ == old(self).buffer@.drop_last().update(
                t as int,
                split_spec(old(self).buffer@[t as int]).0,
            ),
            r@ == rewrite_at(old(self).buffer@.len() - 1, final(self).buffer@, t as int),
    {
        let n = self.buffer.len() - 1;
        let ghost w = self.buffer@.drop_last();
        let (base, _) = split_vowel_and_tone(self.buffer[t]);
        self.buffer.pop();
        self.buffer[t] = base;
        self.last_transform_key = Some(ch);
        self.last_w_transform_kind = WTransformKind::Unset;
        assert(self.buffer@ =~= w.update(t as int, base));
        self.action_from(n, t)
    }

    /// Takes the key off the end of the word, the tone off position `t`
    /// where `t` is below `end`, and puts the toned vowel `c` at `g`.
    fn put_tone_at(&mut self, t: usize, end: usize, g: usize, c: char, ch: char) -> (r:
        KeyTransformAction)
        requires
            old(self).buffer@.len() > 0,
            t <= end < old(self).buffer@.len(),
            g < end,
            crate::letters::is_upper_spec(c) == crate::letters::is_upper_spec(
                old(self).buffer@[g as int],
            ),
        ensures
            final(self).same_settings(old(self)),
            final(self).foreign_mode == old(self).foreign_mode,
            final(self).last_transform_key == Some(ch),
            final(self).last_w_transform_kind == WTransformKind::Unset,
            final(self).buffer@ == (if t < end {
                old(self).buffer@.drop_last().update(
                    t as int,
                    split_spec(old(self).buffer@[t as int]).0,
                )
            } else {
                old(self).buffer@.drop_last()
            }).update(g as int, c),
            r@ == rewrite_at(
                old(self).buffer@.len() - 1,
                final(self).buffer@,
                if t < g {
                    t as int
                } else {
                    g as int
                },
            ),
    {
        let n = self.buffer.len() - 1;
        let ghost w = self.buffer@.drop_last();
        self.buffer.pop();
        assert(self.buffer@ =~= w);
        let mut start = g;
        if t < end {
            let (base_t, _) = split_vowel_and_tone(self.buffer[t]);
            self.buffer[t] = base_t;
            if t < g {
                start = t;
            }
        }
        self.buffer[g] = c;
        self.last_transform_key = Some(ch);
        self.last_w_transform_kind = WTransformKind::Unset;
        proof {
            let cleared = if t < end {
                w.update(t as int, split_spec(w[t as int]).0)
            } else {
                w
            };
            assert(self.buffer@ =~= cleared.update(g as int, c));
        }
        self.action_from(n, start)
    }

    /// A tone key, given as its Telex letter `tone_key` and as the key `ch`
    /// that was typed and now ends the word. A tone is put on or taken off
    /// only where the word before the key forms a syllable, and the word
    /// with the tone forms one too; where the word before the key forms
    /// none, the key is refused and the word goes into foreign mode.
    pub fn apply_tone_mark_internal(&mut self, tone_key: char, ch: char) -> (r: Option<
        KeyTransformAction,
    >)
        ensures
            step_matches_or(
                old(self),
                final(self),
                r,
                tone_mark_spec(old(self).word(), tone_key, ch, old(self).free_tone_placement),
                tone_refusal_spec(old(self).word(), old(self).free_tone_placement),
            ),
            old(self).buffer@.len() > 0 && !syllable_ok(
                old(self).buffer@.take(old(self).buffer@.len() - 1),
                old(self).free_tone_placement,
            ) ==> r is None && final(self).foreign_mode,
            r is Some ==> final(self).foreign_mode || syllable_ok(
                final(self).buffer@,
                old(self).free_tone_placement,
            ),
    {
        if self.buffer.len() == 0 {
            return None;
        }
        let n = self.buffer.len() - 1;
        let ghost w = self.buffer@.take(n as int);
        assert(w =~= self.buffer@.drop_last());
        if !is_syllable_ok(&self.buffer, n, self.free_tone_placement) {
            self.foreign_mode = true;
            return None;
        }
        proof {
            lemma_cluster_bounds(w);
        }
        let (cs, ce) = cluster_bounds(&self.buffer, n);
        if cs >= ce {
            return None;
        }
        let t = find_toned(&self.buffer, n, cs, ce);
        proof {
            lemma_first_toned_from(w, cs as int, ce as int);
        }
        if tone_key == 'z' {
            if t >= ce {
                return None;
            }
            let r = self.strip_tone_at(t, ch);
            proof {
                lemma_toned_of_split(w[t as int]);
                lemma_same_letters_same_syllable(w, self.buffer@, self.free_tone_placement);
            }
            return Some(r);
        }
        if !(tone_key == 's' || tone_key == 'f' || tone_key == 'r' || tone_key == 'x' || tone_key
            == 'j') {
            return None;
        }
        if t < ce {
            let (_, existing) = split_vowel_and_tone(self.buffer[t]);
            let same = match existing {
                Some(e) => e == tone_key,
                None => false,
            };
            if same {
                self.buffer.pop();
                assert(self.buffer@ =~= w);
                proof {
                    lemma_last_with_tone(w, n as int, tone_key);
                    assert(split_spec(w[t as int]).1 == Some(tone_key));
                    assert(last_with_tone(w, n as int, tone_key) is Some);
                }
                let r = self.try_escape_repeated_tone_key(ch, tone_key, ch);
                return r;
            }
        }
        let g = tone_target_index(&self.buffer, n, cs, ce);
        let (base_g, _) = split_vowel_and_tone(self.buffer[g]);
        match apply_tone(base_g, Some(tone_key)) {
            Some(c) => {
                let r = self.put_tone_at(t, ce, g, c, ch);
                proof {
                    lemma_toned_of_split(w[g as int]);
                    if t < ce {
                        lemma_toned_of_split(w[t as int]);
                    }
                    lemma_same_letters_same_syllable(w, self.buffer@, self.free_tone_placement);
                }
                Some(r)
            },
            None => None,
        }
    }
}

} // verus!
