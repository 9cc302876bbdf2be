use vstd::prelude::*;
use crate::classify::{classify, KeyClass};
use crate::common::{
    action_view, display_after, or_outcome, rewrite_at, InputMethod, KeyTransformAction, Outcome,
    Rewrite, WordModel, WTransformKind,
};
use crate::engine::{keeps_case, keeps_separators_out, step_matches, step_matches_or, VitypeEngine};
use crate::history::commit_spec;
use crate::syllable::{is_syllable_ok, syllable_ok};
use crate::telex::{
    is_telex_word_boundary_spec, telex_consonant_transform_spec, telex_escape_spec,
    telex_tone_mark_spec, telex_tone_refusal_spec, telex_vowel_transform_spec,
};
use crate::tone_mark::reposition_spec;
use crate::vni::{
    is_vni_word_boundary_spec, vni_consonant_transform_spec, vni_escape_spec, vni_tone_mark_spec,
    vni_tone_refusal_spec, vni_vowel_transform_spec,
};

verus! {

/// Whether a key ends the word: white space and punctuation always, and
/// in Telex the digits too.
pub open spec fn is_word_boundary_spec(ch: char, method: InputMethod) -> bool {
    match method {
        InputMethod::Telex => is_telex_word_boundary_spec(ch),
        InputMethod::Vni => is_vni_word_boundary_spec(ch),
    }
}

/// A key that repeats the key of the last transform, on a word that does
/// not hold the key yet.
pub open spec fn escape_spec(word: WordModel, method: InputMethod, ch: char) -> Option<Outcome> {
    match method {
        InputMethod::Telex => telex_escape_spec(word, ch),
        InputMethod::Vni => vni_escape_spec(word, ch),
    }
}

/// A key on a word that ends with it: the stroke, then the vowel shapes,
/// then the tones; the first that fires.
pub open spec fn transform_spec(
    word: WordModel,
    method: InputMethod,
    ch: char,
    auto_fix: bool,
    relaxed: bool,
) -> Option<Outcome> {
    match method {
        InputMethod::Telex => or_outcome(
            telex_consonant_transform_spec(word, ch),
            or_outcome(
                telex_vowel_transform_spec(word, ch, auto_fix),
                telex_tone_mark_spec(word, ch, relaxed),
            ),
        ),
        InputMethod::Vni => or_outcome(
            vni_consonant_transform_spec(word, ch),
            or_outcome(
                vni_vowel_transform_spec(word, ch, auto_fix),
                vni_tone_mark_spec(word, ch, relaxed),
            ),
        ),
    }
}

/// The word after a key that no transform took, on a word that ends with
/// the key: a tone key on a word that forms no syllable has put it into
/// foreign mode; any other key has changed nothing.
pub open spec fn after_refusal(
    word: WordModel,
    method: InputMethod,
    ch: char,
    relaxed: bool,
) -> WordModel {
    match method {
        InputMethod::Telex => telex_tone_refusal_spec(word, ch, relaxed),
        InputMethod::Vni => vni_tone_refusal_spec(word, ch, relaxed),
    }
}

/// The word put into foreign mode where it no longer forms a syllable.
pub open spec fn revalidated(word: WordModel, relaxed: bool) -> WordModel {
    WordModel {
        buffer: word.buffer,
        last_transform_key: word.last_transform_key,
        last_w_transform_kind: word.last_w_transform_kind,
        foreign_mode: word.foreign_mode || !syllable_ok(word.buffer, relaxed),
    }
}

/// The word with nothing left to undo.
pub open spec fn forgotten(word: WordModel) -> WordModel {
    WordModel {
        buffer: word.buffer,
        last_transform_key: None,
        last_w_transform_kind: WTransformKind::Unset,
        foreign_mode: word.foreign_mode,
    }
}

/// A key that stays a letter, on a word that ends with it. There is
/// nothing left to undo. A word that no longer forms a syllable goes into
/// foreign mode; in one that does, the tone moves to the vowel that should
/// now carry it, where the setting asks for it.
pub open spec fn literal_spec(word: WordModel, auto_fix: bool, relaxed: bool) -> (
    WordModel,
    Option<Rewrite>,
) {
    let plain = revalidated(forgotten(word), relaxed);
    if plain.foreign_mode || !auto_fix {
        (plain, None)
    } else {
        match reposition_spec(word.buffer) {
            Some((b, s)) => (
                revalidated(
                    WordModel {
                        buffer: b,
                        last_transform_key: None,
                        last_w_transform_kind: WTransformKind::Unset,
                        foreign_mode: false,
                    },
                    relaxed,
                ),
                Some(rewrite_at(word.buffer.len() - 1, b, s)),
            ),
            None => (plain, None),
        }
    }
}

/// The word with one more character.
pub open spec fn pushed(word: WordModel, ch: char) -> WordModel {
    WordModel {
        buffer: word.buffer.push(ch),
        last_transform_key: word.last_transform_key,
        last_w_transform_kind: word.last_w_transform_kind,
        foreign_mode: word.foreign_mode,
    }
}

/// The word after a key whose transform would have left no syllable: the
/// key stays a letter, and the word goes into foreign mode.
pub open spec fn rejected(word: WordModel) -> WordModel {
    WordModel {
        buffer: word.buffer,
        last_transform_key: None,
        last_w_transform_kind: WTransformKind::Unset,
        foreign_mode: true,
    }
}

/// What a key that is no boundary does to the word, and what the host is
/// told. In foreign mode the key is a letter. Else it undoes the last
/// transform where it repeats its key, or transforms the word, or stays a
/// letter. A transform that would leave no syllable is taken back: the
/// key stays a letter, and the word goes into foreign mode.
#[verifier::opaque]
pub open spec fn key_spec(
    word: WordModel,
    method: InputMethod,
    auto_fix: bool,
    relaxed: bool,
    ch: char,
) -> (WordModel, Option<Rewrite>) {
    if word.foreign_mode {
        (pushed(word, ch), None)
    } else {
        match escape_spec(word, method, ch) {
            Some(o) => (o.word, Some(o.rewrite)),
            None => match transform_spec(pushed(word, ch), method, ch, auto_fix, relaxed) {
                Some(o) => if o.word.foreign_mode || syllable_ok(o.word.buffer, relaxed) {
                    (o.word, Some(o.rewrite))
                } else {
                    (rejected(pushed(word, ch)), None)
                },
                None => literal_spec(
                    after_refusal(pushed(word, ch), method, ch, relaxed),
                    auto_fix,
                    relaxed,
                ),
            },
        }
    }
}

/// The settings under which keys are typed.
pub struct Settings {
    pub method: InputMethod,
    pub auto_fix: bool,
    pub relaxed: bool,
}

/// The word that a boundary leaves behind: empty, with nothing to undo.
pub open spec fn empty_word() -> WordModel {
    WordModel {
        buffer: Seq::empty(),
        last_transform_key: None,
        last_w_transform_kind: WTransformKind::Unset,
        foreign_mode: false,
    }
}

/// The word in progress after one key.
pub open spec fn word_after(word: WordModel, s: Settings, ch: char) -> WordModel {
    if is_word_boundary_spec(ch, s.method) {
        empty_word()
    } else {
        key_spec(word, s.method, s.auto_fix, s.relaxed, ch).0
    }
}

/// What one key tells the host: a boundary nothing, any other key what
/// the rules return.
pub open spec fn rewrite_of(word: WordModel, s: Settings, ch: char) -> Option<Rewrite> {
    if is_word_boundary_spec(ch, s.method) {
        None
    } else {
        key_spec(word, s.method, s.auto_fix, s.relaxed, ch).1
    }
}

impl VitypeEngine {
    /// The settings of the engine.
    pub open spec fn settings(&self) -> Settings {
        Settings {
            method: self.input_method,
            auto_fix: self.auto_fix_tone,
            relaxed: self.free_tone_placement,
        }
    }

    /// Whether a key ends the word under the engine's input method.
    pub fn is_word_boundary(&self, ch: char) -> (r: bool)
        ensures
            r == is_word_boundary_spec(ch, self.input_method),
    {
        match classify(ch, self.input_method) {
            KeyClass::Boundary => true,
            _ => false,
        }
    }

    /// A key that may repeat the key of the last transform.
    pub fn try_escape_sequence(&mut self, ch: char) -> (r: Option<KeyTransformAction>)
        ensures
            step_matches(
                old(self),
                final(self),
                r,
                escape_spec(old(self).word(), old(self).input_method, ch),
            ),
            r is Some ==> final(self).foreign_mode,
    {
        match self.input_method {
            InputMethod::Telex => self.try_telex_escape_sequence(ch),
            InputMethod::Vni => self.try_vni_escape_sequence(ch),
        }
    }

    /// A key, typed and now ending the word, through the transforms.
    pub fn try_transform(&mut self, ch: char) -> (r: Option<KeyTransformAction>)
        ensures
            step_matches_or(
                old(self),
                final(self),
                r,
                transform_spec(
                    old(self).word(),
                    old(self).input_method,
                    ch,
                    old(self).auto_fix_tone,
                    old(self).free_tone_placement,
                ),
                after_refusal(
                    old(self).word(),
                    old(self).input_method,
                    ch,
                    old(self).free_tone_placement,
                ),
            ),
    {
        match self.input_method {
            InputMethod::Telex => {
                let r = self.try_telex_consonant_transform(ch);
                if r.is_some() {
                    return r;
                }
                let r = self.try_telex_vowel_transform(ch);
                if r.is_some() {
                    return r;
                }
                self.try_telex_tone_mark(ch)
            },
            InputMethod::Vni => {
                let r = self.try_vni_consonant_transform(ch);
                if r.is_some() {
                    return r;
                }
                let r = self.try_vni_vowel_transform(ch);
                if r.is_some() {
                    return r;
                }
                self.try_vni_tone_mark(ch)
            },
        }
    }

    /// A key that stays a letter and now ends the word.
    pub fn settle_literal(&mut self) -> (r: Option<KeyTransformAction>)
        ensures
            final(self).same_settings(old(self)),
            (final(self).word(), action_view(r)) == literal_spec(
                old(self).word(),
                old(self).auto_fix_tone,
                old(self).free_tone_placement,
            ),
            final(self).word_wf(),
    {
        self.last_transform_key = None;
        self.last_w_transform_kind = WTransformKind::Unset;
        self.revalidate();
        if self.foreign_mode || !self.auto_fix_tone {
            return None;
        }
        let r = self.reposition_tone_if_needed(true, None);
        if r.is_some() {
            self.revalidate();
        }
        r
    }

    /// One key. A boundary closes the word: the word and the boundary go
    /// into the history, and nothing is returned. Any other key changes
    /// the word in progress as the rules say. The action, where there is
    /// one, turns what the display showed of the word into the word as it
    /// is now, and where there is none the key itself does. No character
    /// that the display showed changes its case.
    pub fn process_char(&mut self, ch: char) -> (r: Option<KeyTransformAction>)
        ensures
            final(self).settings() == old(self).settings(),
            final(self).word() == word_after(old(self).word(), old(self).settings(), ch),
            action_view(r) == rewrite_of(old(self).word(), old(self).settings(), ch),
            is_word_boundary_spec(ch, old(self).input_method) ==> final(self).history@
                == commit_spec(old(self), ch),
            !is_word_boundary_spec(ch, old(self).input_method) ==> {
                &&& final(self).history == old(self).history
                &&& final(self).buffer@ == display_after(old(self).buffer@, ch, action_view(r))
                &&& r is Some ==> 0 <= r->0.delete_count <= old(self).buffer@.len()
                &&& keeps_case(old(self).buffer@, final(self).buffer@)
                &&& keeps_separators_out(old(self).buffer@, ch, final(self).buffer@)
            },
            final(self).word_wf(),
            old(self).wf() ==> final(self).wf(),
    {
        proof {
            reveal(key_spec);
            crate::soundness::lemma_key_sound(
                self.word(),
                self.input_method,
                self.auto_fix_tone,
                self.free_tone_placement,
                ch,
            );
        }
        if self.is_word_boundary(ch) {
            self.commit_word(ch);
            assert(self.buffer@ =~= Seq::<char>::empty());
            return None;
        }
        let ghost display = self.buffer@;
        if self.foreign_mode {
            self.buffer.push(ch);
            return None;
        }
        let escaped = self.try_escape_sequence(ch);
        if escaped.is_some() {
            return escaped;
        }
        self.buffer.push(ch);
        assert(self.buffer@.drop_last() =~= display);
        let typed = self.buffer.clone();
        assert(typed@ =~= self.buffer@);
        let transformed = self.try_transform(ch);
        if transformed.is_some() {
            if !self.foreign_mode {
                let n = self.buffer.len();
                assert(self.buffer@.take(n as int) =~= self.buffer@);
                if !is_syllable_ok(&self.buffer, n, self.free_tone_placement) {
                    self.buffer = typed;
                    self.clear_last_transform_and_suppress(ch);
                    return None;
                }
            }
            return transformed;
        }
        self.settle_literal()
    }

    /// One key as the host hands it over: a string of one character. An
    /// empty string changes nothing; a longer one cannot be followed, so
    /// the engine forgets the word and the history.
    pub fn process(&mut self, key: &str) -> (r: Option<KeyTransformAction>)
        ensures
            final(self).settings() == old(self).settings(),
            old(self).wf() ==> final(self).wf(),
            key@.len() == 0 ==> r is None && *final(self) == *old(self),
            key@.len() > 1 ==> {
                &&& r is None
                &&& final(self).word() == empty_word()
                &&& final(self).history@.len() == 0
            },
            key@.len() == 1 ==> {
                &&& final(self).word() == word_after(old(self).word(), old(self).settings(), key@[0])
                &&& action_view(r) == rewrite_of(old(self).word(), old(self).settings(), key@[0])
            },
            key@.len() == 1 && is_word_boundary_spec(key@[0], old(self).input_method) ==> {
                final(self).history@ == commit_spec(old(self), key@[0])
            },
            key@.len() == 1 && !is_word_boundary_spec(key@[0], old(self).input_method) ==> {
                &&& final(self).history == old(self).history
                &&& final(self).buffer@ == display_after(old(self).buffer@, key@[0], action_view(r))
                &&& r is Some ==> 0 <= r->0.delete_count <= old(self).buffer@.len()
                &&& keeps_case(old(self).buffer@, final(self).buffer@)
            },
    {
        let n = key.unicode_len();
        if n == 0 {
            return None;
        }
        if n > 1 {
            self.reset();
            assert(self.buffer@ =~= Seq::<char>::empty());
            return None;
        }
        let ch = key.get_char(0);
        self.process_char(ch)
    }

    /// Forgets the word in progress and the history. The settings stay.
    pub fn reset(&mut self)
        ensures
            final(self).input_method == old(self).input_method,
            final(self).auto_fix_tone == old(self).auto_fix_tone,
            final(self).free_tone_placement == old(self).free_tone_placement,
            final(self).buffer@.len() == 0,
            final(self).history@.len() == 0,
            final(self).last_transform_key is None,
            final(self).last_w_transform_kind == WTransformKind::Unset,
            !final(self).foreign_mode,
            final(self).wf(),
    {
        self.clear_word();
        self.history.clear();
    }

    /// Changes the input method and starts afresh: a word typed under one
    /// method may hold what ends a word under the other.
    pub fn set_input_method(&mut self, method: InputMethod)
        ensures
            final(self).input_method == method,
            final(self).auto_fix_tone == old(self).auto_fix_tone,
            final(self).free_tone_placement == old(self).free_tone_placement,
            final(self).buffer@.len() == 0,
            final(self).history@.len() == 0,
            final(self).last_transform_key is None,
            final(self).last_w_transform_kind == WTransformKind::Unset,
            !final(self).foreign_mode,
            final(self).wf(),
    {
        self.input_method = method;
        self.reset();
    }

    /// Sets whether the tone moves when the vowels of the word change.
    pub fn set_auto_fix_tone(&mut self, enabled: bool)
        ensures
            final(self).auto_fix_tone == enabled,
            final(self).input_method == old(self).input_method,
            final(self).free_tone_placement == old(self).free_tone_placement,
            final(self).word() == old(self).word(),
            final(self).buffer == old(self).buffer,
            final(self).history == old(self).history,
            old(self).wf() ==> final(self).wf(),
    {
        self.auto_fix_tone = enabled;
    }

    /// Sets whether a tone may go on a syllable that is not a legal one.
    /// The word in progress is checked under the new setting.
    pub fn set_free_tone_placement(&mut self, enabled: bool)
        ensures
            final(self).free_tone_placement == enabled,
            final(self).input_method == old(self).input_method,
            final(self).auto_fix_tone == old(self).auto_fix_tone,
            final(self).buffer == old(self).buffer,
            final(self).history == old(self).history,
            final(self).last_transform_key == old(self).last_transform_key,
            final(self).last_w_transform_kind == old(self).last_w_transform_kind,
            final(self).foreign_mode == (old(self).foreign_mode || !syllable_ok(
                old(self).buffer@,
                enabled,
            )),
            final(self).word_wf(),
            old(self).wf() ==> final(self).wf(),
    {
        self.free_tone_placement = enabled;
        self.revalidate();
    }
}

} // verus!
