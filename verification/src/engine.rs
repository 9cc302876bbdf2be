use vstd::prelude::*;
use crate::common::{
    rewrite_at, rewrite_fits, HistorySegment, InputMethod, KeyTransformAction, Outcome, WordModel,
    WTransformKind,
};
use crate::letters::{is_separator_spec, is_upper_spec};
use crate::syllable::{is_syllable_ok, syllable_ok};

verus! {

/// How many closed words the history keeps.
pub const HISTORY_WORD_LIMIT: usize = 3;

/// How many entries, words and boundaries together, the history keeps,
/// so that a run of boundaries cannot make it grow without end. Entries
/// leave at the front, oldest first: the history has to stay the tail of
/// what the display shows, or a backspace would bring back the wrong word.
pub const HISTORY_SEGMENT_LIMIT: usize = 16;

/// How many characters may stand between a key and the letter it changes.
pub const FREE_TRANSFORM_WINDOW: usize = 4;

/// The engine: the word in progress, the settings, and the words closed
/// before it.
#[derive(Clone, Debug)]
pub struct VitypeEngine {
    pub buffer: Vec<char>,
    pub input_method: InputMethod,
    pub last_transform_key: Option<char>,
    pub last_w_transform_kind: WTransformKind,
    pub foreign_mode: bool,
    pub auto_fix_tone: bool,
    pub free_tone_placement: bool,
    pub history: Vec<HistorySegment>,
}

/// How many entries of a history are words.
pub open spec fn word_count(h: Seq<HistorySegment>) -> nat
    decreases h.len(),
{
    if h.len() == 0 {
        0
    } else {
        word_count(h.drop_first()) + if h[0] is Word {
            1nat
        } else {
            0nat
        }
    }
}

/// A history is in bounds when it holds no more words and no more entries
/// than the limits allow.
pub open spec fn history_in_bounds(h: Seq<HistorySegment>) -> bool {
    word_count(h) <= HISTORY_WORD_LIMIT && h.len() <= HISTORY_SEGMENT_LIMIT
}

/// No character that a word showed before a key has changed its case
/// after it.
pub open spec fn keeps_case(display: Seq<char>, buffer: Seq<char>) -> bool {
    forall|i: int|
        0 <= i < display.len() && i < buffer.len() ==> is_upper_spec(#[trigger] buffer[i])
            == is_upper_spec(display[i])
}

/// The outcome of a key that changed the word: the key is remembered, the
/// display is rewritten from `start` on.
pub open spec fn transformed(
    word: WordModel,
    display_len: int,
    buffer: Seq<char>,
    key: char,
    kind: WTransformKind,
    start: int,
) -> Outcome {
    Outcome {
        word: WordModel {
            buffer,
            last_transform_key: Some(key),
            last_w_transform_kind: kind,
            foreign_mode: word.foreign_mode,
        },
        rewrite: rewrite_at(display_len, buffer, start),
    }
}

/// The outcome of a key that undid a transform: nothing is remembered, the
/// word is in foreign mode, the display is rewritten from `start` on.
pub open spec fn escaped(display_len: int, buffer: Seq<char>, start: int) -> Outcome {
    Outcome {
        word: WordModel {
            buffer,
            last_transform_key: None,
            last_w_transform_kind: WTransformKind::Unset,
            foreign_mode: true,
        },
        rewrite: rewrite_at(display_len, buffer, start),
    }
}

/// The engine went from `pre` to `post` and returned `r` as the outcome
/// `o` says; where `o` is `None`, nothing changed and nothing was returned.
pub open spec fn step_matches(
    pre: &VitypeEngine,
    post: &VitypeEngine,
    r: Option<KeyTransformAction>,
    o: Option<Outcome>,
) -> bool {
    &&& post.same_settings(pre)
    &&& match o {
        Some(o) => r is Some && r->0@ == o.rewrite && post.word() == o.word,
        None => r is None && post.word() == pre.word(),
    }
}

/// The same for a step that may refuse: where `o` is `None`, nothing was
/// returned and the word is `otherwise`.
pub open spec fn step_matches_or(
    pre: &VitypeEngine,
    post: &VitypeEngine,
    r: Option<KeyTransformAction>,
    o: Option<Outcome>,
    otherwise: WordModel,
) -> bool {
    &&& post.same_settings(pre)
    &&& match o {
        Some(o) => r is Some && r->0@ == o.rewrite && post.word() == o.word,
        None => r is None && post.word() == otherwise,
    }
}

/// A rewrite from `start` fits where the word agrees with the display
/// before `start`.
pub proof fn lemma_rewrite_at_fits(display: Seq<char>, buffer: Seq<char>, start: int)
    requires
        0 <= start <= display.len(),
        start <= buffer.len(),
        forall|j: int| 0 <= j < start ==> buffer[j] == display[j],
    ensures
        rewrite_fits(display, buffer, rewrite_at(display.len() as int, buffer, start)),
{
    assert(buffer =~= display.take(start) + buffer.subrange(start, buffer.len() as int));
}

/// A word is clean under a method when it holds no character that ends a
/// word under that method.
pub open spec fn is_clean(w: Seq<char>, method: InputMethod) -> bool {
    forall|i: int| 0 <= i < w.len() ==> !crate::process::is_word_boundary_spec(#[trigger] w[i], method)
}

/// Every word of a history is clean.
pub open spec fn history_clean(h: Seq<HistorySegment>, method: InputMethod) -> bool {
    forall|i: int|
        0 <= i < h.len() && (#[trigger] h[i]) is Word ==> is_clean(h[i]->Word_0.chars@, method)
}

/// A key brings no separator into the word: every separator of the word
/// after the key stood at its place before, or is the key itself.
pub open spec fn keeps_separators_out(display: Seq<char>, key: char, buffer: Seq<char>) -> bool {
    forall|i: int|
        0 <= i < buffer.len() && is_separator_spec(#[trigger] buffer[i]) ==> buffer[i] == key || (i
            < display.len() && buffer[i] == display[i])
}

impl Default for VitypeEngine {
    fn default() -> (r: VitypeEngine)
        ensures
            r.wf(),
            r.buffer@.len() == 0,
            r.history@.len() == 0,
            r.input_method == InputMethod::Telex,
            r.last_transform_key is None,
            r.last_w_transform_kind == WTransformKind::Unset,
            !r.foreign_mode,
            r.auto_fix_tone,
            !r.free_tone_placement,
    {
        VitypeEngine::new()
    }
}

impl VitypeEngine {
    /// The word in progress as a mathematical value.
    pub open spec fn word(&self) -> WordModel {
        WordModel {
            buffer: self.buffer@,
            last_transform_key: self.last_transform_key,
            last_w_transform_kind: self.last_w_transform_kind,
            foreign_mode: self.foreign_mode,
        }
    }

    /// Settings and history are those of `other`.
    pub open spec fn same_settings(&self, other: &VitypeEngine) -> bool {
        &&& self.input_method == other.input_method
        &&& self.auto_fix_tone == other.auto_fix_tone
        &&& self.free_tone_placement == other.free_tone_placement
        &&& self.history == other.history
    }

    /// A word that is not in foreign mode forms a syllable.
    pub open spec fn word_wf(&self) -> bool {
        !self.foreign_mode ==> syllable_ok(self.buffer@, self.free_tone_placement)
    }

    /// The engine's invariant: a word that is not in foreign mode forms a
    /// syllable; the history is in bounds; and neither the word in progress
    /// nor a word of the history holds a character that ends a word.
    pub open spec fn wf(&self) -> bool {
        &&& self.word_wf()
        &&& history_in_bounds(self.history@)
        &&& is_clean(self.buffer@, self.input_method)
        &&& history_clean(self.history@, self.input_method)
    }

    /// A new engine: Telex, an empty word, an empty history, tones
    /// repositioned as the word grows, tones refused on illegal syllables.
    pub fn new() -> (r: VitypeEngine)
        ensures
            r.wf(),
            r.buffer@.len() == 0,
            r.history@.len() == 0,
            r.input_method == InputMethod::Telex,
            r.last_transform_key is None,
            r.last_w_transform_kind == WTransformKind::Unset,
            !r.foreign_mode,
            r.auto_fix_tone,
            !r.free_tone_placement,
    {
        let r = VitypeEngine {
            buffer: Vec::new(),
            input_method: InputMethod::Telex,
            last_transform_key: None,
            last_w_transform_kind: WTransformKind::Unset,
            foreign_mode: false,
            auto_fix_tone: true,
            free_tone_placement: false,
            history: Vec::new(),
        };
        proof {
            crate::syllable::lemma_empty_word_ok(r.buffer@, r.free_tone_placement);
        }
        r
    }

    /// Forgets the last transform and makes the rest of the word literal.
    pub fn clear_last_transform_and_suppress(&mut self, _key: char)
        ensures
            final(self).same_settings(old(self)),
            final(self).buffer == old(self).buffer,
            final(self).last_transform_key is None,
            final(self).last_w_transform_kind == WTransformKind::Unset,
            final(self).foreign_mode,
    {
        self.last_transform_key = None;
        self.last_w_transform_kind = WTransformKind::Unset;
        self.foreign_mode = true;
    }

    /// The text of the word from `index` on.
    pub fn buffer_string_from(&self, index: usize) -> (r: String)
        requires
            index <= self.buffer.len(),
        ensures
            r@ == self.buffer@.subrange(index as int, self.buffer.len() as int),
    {
        let mut text = String::new();
        let mut i: usize = index;
        while i < self.buffer.len()
            invariant
                index <= i <= self.buffer.len(),
                text@ == self.buffer@.subrange(index as int, i as int),
            decreases self.buffer.len() - i,
        {
            text.push(self.buffer[i]);
            i += 1;
        }
        text
    }

    /// The action that rewrites the display from `start` on, for a word
    /// that showed `display_len` characters before the key.
    pub fn action_from(&self, display_len: usize, start: usize) -> (r: KeyTransformAction)
        requires
            start <= display_len,
            start <= self.buffer@.len(),
        ensures
            r@ == rewrite_at(display_len as int, self.buffer@, start as int),
    {
        KeyTransformAction {
            delete_count: display_len - start,
            text: self.buffer_string_from(start),
        }
    }

    /// Puts the word into foreign mode where it no longer forms a syllable.
    pub fn revalidate(&mut self)
        ensures
            final(self).same_settings(old(self)),
            final(self).buffer == old(self).buffer,
            final(self).last_transform_key == old(self).last_transform_key,
            final(self).last_w_transform_kind == old(self).last_w_transform_kind,
            final(self).foreign_mode == (old(self).foreign_mode || !syllable_ok(
                old(self).buffer@,
                old(self).free_tone_placement,
            )),
            final(self).word_wf(),
    {
        if !self.foreign_mode {
            let n = self.buffer.len();
            assert(self.buffer@.take(n as int) =~= self.buffer@);
            if !is_syllable_ok(&self.buffer, n, self.free_tone_placement) {
                self.foreign_mode = true;
            }
        }
    }
}

} // verus!
