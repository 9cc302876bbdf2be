use vstd::prelude::*;
use crate::common::{HistorySegment, WordSnapshot, WTransformKind};
use crate::engine::{
    history_clean, history_in_bounds, HISTORY_SEGMENT_LIMIT, HISTORY_WORD_LIMIT, is_clean,
    word_count, VitypeEngine,
};
use crate::syllable::{lemma_empty_word_ok, syllable_ok};

verus! {

/// A history cut down to its bounds: entries leave at the front while it
/// holds too many words or too many entries, and a boundary never stays
/// at the front.
pub open spec fn trim_history(h: Seq<HistorySegment>) -> Seq<HistorySegment>
    decreases h.len(),
{
    if h.len() > 0 && (word_count(h) > HISTORY_WORD_LIMIT || h.len() > HISTORY_SEGMENT_LIMIT
        || h[0] is Boundary) {
        trim_history(h.drop_first())
    } else {
        h
    }
}

/// The word in progress as the history keeps it.
pub open spec fn closed_word(e: &VitypeEngine) -> HistorySegment {
    HistorySegment::Word(
        WordSnapshot {
            chars: e.buffer,
            last_transform_key: e.last_transform_key,
            last_w_kind: e.last_w_transform_kind,
            was_foreign: e.foreign_mode,
        },
    )
}

/// The history after the boundary `ch` has closed the word in progress:
/// the word, where it is not empty, then the boundary, cut to the bounds.
pub open spec fn commit_spec(e: &VitypeEngine, ch: char) -> Seq<HistorySegment> {
    let with_word = if e.buffer@.len() > 0 {
        e.history@.push(closed_word(e))
    } else {
        e.history@
    };
    trim_history(with_word.push(HistorySegment::Boundary(ch)))
}

/// A trimmed history is in bounds, starts with a word unless it is empty,
/// and is the tail of the history it was cut from.
pub proof fn lemma_trim_history(h: Seq<HistorySegment>)
    ensures
        history_in_bounds(trim_history(h)),
        trim_history(h).len() > 0 ==> trim_history(h)[0] is Word,
        trim_history(h).len() <= h.len(),
        trim_history(h) == h.skip(h.len() - trim_history(h).len()),
    decreases h.len(),
{
    if h.len() > 0 && (word_count(h) > HISTORY_WORD_LIMIT || h.len() > HISTORY_SEGMENT_LIMIT
        || h[0] is Boundary) {
        let t = h.drop_first();
        lemma_trim_history(t);
        let k = t.len() - trim_history(t).len();
        assert(t.skip(k) =~= h.skip(k + 1));
    } else {
        assert(h.skip(0) =~= h);
    }
}

/// A history in bounds that does not start with a boundary is left as it
/// is: trimming takes away no more than it must.
pub proof fn lemma_trim_keeps_what_fits(h: Seq<HistorySegment>)
    requires
        history_in_bounds(h),
        h.len() > 0 ==> h[0] is Word,
    ensures
        trim_history(h) == h,
{
}

/// Whether an entry of the history is a word.
pub fn is_word_segment(seg: &HistorySegment) -> (r: bool)
    ensures
        r == (seg is Word),
{
    match seg {
        HistorySegment::Word(_) => true,
        HistorySegment::Boundary(_) => false,
    }
}

impl VitypeEngine {
    /// How many words the history holds.
    pub fn count_history_words(&self) -> (r: usize)
        ensures
            r == word_count(self.history@),
    {
        let n = self.history.len();
        let mut count: usize = 0;
        let mut i: usize = 0;
        assert(self.history@.skip(0) =~= self.history@);
        while i < n
            invariant
                i <= n == self.history@.len(),
                count <= i,
                count + word_count(self.history@.skip(i as int)) == word_count(self.history@),
            decreases n - i,
        {
            assert(self.history@.skip(i as int).drop_first() =~= self.history@.skip(i + 1));
            if is_word_segment(&self.history[i]) {
                count += 1;
            }
            i += 1;
        }
        count
    }

    /// Cuts the history down to its bounds.
    pub fn trim_history(&mut self)
        ensures
            final(self).history@ == trim_history(old(self).history@),
            history_in_bounds(final(self).history@),
            final(self).buffer == old(self).buffer,
            final(self).input_method == old(self).input_method,
            final(self).last_transform_key == old(self).last_transform_key,
            final(self).last_w_transform_kind == old(self).last_w_transform_kind,
            final(self).foreign_mode == old(self).foreign_mode,
            final(self).auto_fix_tone == old(self).auto_fix_tone,
            final(self).free_tone_placement == old(self).free_tone_placement,
    {
        proof {
            lemma_trim_history(self.history@);
        }
        loop
            invariant
                trim_history(self.history@) == trim_history(old(self).history@),
                self.buffer == old(self).buffer,
                self.input_method == old(self).input_method,
                self.last_transform_key == old(self).last_transform_key,
                self.last_w_transform_kind == old(self).last_w_transform_kind,
                self.foreign_mode == old(self).foreign_mode,
                self.auto_fix_tone == old(self).auto_fix_tone,
                self.free_tone_placement == old(self).free_tone_placement,
            ensures
                self.history@ == trim_history(old(self).history@),
            decreases self.history@.len(),
        {
            let n = self.history.len();
            if n == 0 {
                break ;
            }
            let words = self.count_history_words();
            if words > HISTORY_WORD_LIMIT || n > HISTORY_SEGMENT_LIMIT || !is_word_segment(
                &self.history[0],
            ) {
                let ghost before = self.history@;
                self.history.remove(0);
                assert(self.history@ =~= before.drop_first());
            } else {
                break ;
            }
        }
    }

    /// Forgets the word in progress: an empty word, no transform to undo,
    /// not in foreign mode.
    pub fn clear_word(&mut self)
        ensures
            final(self).same_settings(old(self)),
            final(self).buffer@.len() == 0,
            final(self).last_transform_key is None,
            final(self).last_w_transform_kind == WTransformKind::Unset,
            !final(self).foreign_mode,
            final(self).word_wf(),
    {
        self.buffer.clear();
        self.last_transform_key = None;
        self.last_w_transform_kind = WTransformKind::Unset;
        self.foreign_mode = false;
        proof {
            lemma_empty_word_ok(self.buffer@, self.free_tone_placement);
        }
    }

    /// Closes the word in progress at the boundary `ch`: the word, where
    /// it is not empty, and the boundary go into the history, and a new
    /// word starts.
    pub fn commit_word(&mut self, ch: char)
        ensures
            final(self).history@ == commit_spec(old(self), ch),
            history_in_bounds(final(self).history@),
            final(self).input_method == old(self).input_method,
            final(self).auto_fix_tone == old(self).auto_fix_tone,
            final(self).free_tone_placement == old(self).free_tone_placement,
            final(self).buffer@.len() == 0,
            final(self).last_transform_key is None,
            final(self).last_w_transform_kind == WTransformKind::Unset,
            !final(self).foreign_mode,
            final(self).word_wf(),
            is_clean(old(self).buffer@, old(self).input_method) && history_clean(
                old(self).history@,
                old(self).input_method,
            ) ==> final(self).wf(),
    {
        proof {
            let with_word = if self.buffer@.len() > 0 {
                self.history@.push(closed_word(self))
            } else {
                self.history@
            };
            lemma_trim_history(with_word.push(HistorySegment::Boundary(ch)));
        }
        if self.buffer.len() > 0 {
            let mut chars: Vec<char> = Vec::new();
            core::mem::swap(&mut self.buffer, &mut chars);
            let snapshot = WordSnapshot {
                chars,
                last_transform_key: self.last_transform_key,
                last_w_kind: self.last_w_transform_kind,
                was_foreign: self.foreign_mode,
            };
            self.history.push(HistorySegment::Word(snapshot));
        }
        self.history.push(HistorySegment::Boundary(ch));
        self.trim_history();
        self.clear_word();
    }

    /// One backspace. A word in progress loses its last character and is
    /// checked again. With no word in progress, the boundary that ends
    /// the history goes, and the word before it, where there is one,
    /// becomes the word in progress again, checked as well.
    pub fn delete_last_character(&mut self)
        ensures
            final(self).input_method == old(self).input_method,
            final(self).auto_fix_tone == old(self).auto_fix_tone,
            final(self).free_tone_placement == old(self).free_tone_placement,
            final(self).word_wf(),
            old(self).wf() ==> final(self).wf(),
            old(self).buffer@.len() > 0 ==> {
                &&& final(self).history == old(self).history
                &&& final(self).buffer@ == old(self).buffer@.drop_last()
                &&& final(self).last_transform_key is None
                &&& final(self).last_w_transform_kind == WTransformKind::Unset
                &&& final(self).foreign_mode == (final(self).buffer@.len() > 0 && (old(
                    self,
                ).foreign_mode || !syllable_ok(
                    final(self).buffer@,
                    old(self).free_tone_placement,
                )))
            },
            old(self).buffer@.len() == 0 && revives_word(old(self).history@) ==> {
                let snapshot = old(self).history@[old(self).history@.len() - 2]->Word_0;
                &&& final(self).history@ == old(self).history@.take(old(self).history@.len() - 2)
                &&& final(self).buffer == snapshot.chars
                &&& final(self).last_transform_key == snapshot.last_transform_key
                &&& final(self).last_w_transform_kind == snapshot.last_w_kind
                &&& final(self).foreign_mode == (snapshot.was_foreign || !syllable_ok(
                    snapshot.chars@,
                    old(self).free_tone_placement,
                ))
            },
            old(self).buffer@.len() == 0 && !revives_word(old(self).history@) ==> {
                &&& final(self).word() == old(self).word()
                &&& final(self).history@ == if ends_in_boundary(old(self).history@) {
                    old(self).history@.drop_last()
                } else {
                    old(self).history@
                }
            },
    {
        if self.buffer.len() > 0 {
            self.buffer.pop();
            self.last_transform_key = None;
            self.last_w_transform_kind = WTransformKind::Unset;
            if self.buffer.len() == 0 {
                self.foreign_mode = false;
                proof {
                    lemma_empty_word_ok(self.buffer@, self.free_tone_placement);
                }
            } else {
                self.revalidate();
            }
            return ;
        }
        proof {
            lemma_empty_word_ok(self.buffer@, self.free_tone_placement);
        }
        let n = self.history.len();
        if n == 0 || is_word_segment(&self.history[n - 1]) {
            return ;
        }
        let ghost h = self.history@;
        self.history.pop();
        assert(self.history@ =~= h.drop_last());
        proof {
            lemma_word_count_drop_last(h);
        }
        if n >= 2 && is_word_segment(&self.history[n - 2]) {
            let ghost h1 = self.history@;
            match self.history.pop() {
                Some(HistorySegment::Word(snapshot)) => {
                    assert(self.history@ =~= h.take(n - 2));
                    proof {
                        lemma_word_count_drop_last(h1);
                    }
                    self.buffer = snapshot.chars;
                    self.last_transform_key = snapshot.last_transform_key;
                    self.last_w_transform_kind = snapshot.last_w_kind;
                    self.foreign_mode = snapshot.was_foreign;
                    self.revalidate();
                },
                _ => {},
            }
        }
    }
}

/// A history ends in a boundary.
pub open spec fn ends_in_boundary(h: Seq<HistorySegment>) -> bool {
    h.len() > 0 && h.last() is Boundary
}

/// A backspace on an empty word brings a word back when the history ends
/// in a boundary with a word before it.
pub open spec fn revives_word(h: Seq<HistorySegment>) -> bool {
    h.len() >= 2 && h.last() is Boundary && h[h.len() - 2] is Word
}

/// A history without its last entry holds no more words than before.
pub proof fn lemma_word_count_drop_last(h: Seq<HistorySegment>)
    requires
        h.len() > 0,
    ensures
        word_count(h.drop_last()) <= word_count(h),
    decreases h.len(),
{
    if h.len() > 1 {
        lemma_word_count_drop_last(h.drop_first());
        assert(h.drop_first().drop_last() =~= h.drop_last().drop_first());
    } else {
        assert(h.drop_last().len() == 0);
    }
}

} // verus!
