use vstd::prelude::*;
use crate::common::{KeyTransformAction, Outcome, WordModel, WTransformKind};
use crate::engine::{escaped, FREE_TRANSFORM_WINDOW, step_matches, transformed, VitypeEngine};
use crate::search::{find_last_hit, last_hit, window_floor, window_start, Probe};

verus! {

/// The letter `d` with its stroke, in the case of `ch`.
pub open spec fn stroked_spec(ch: char) -> char {
    if ch == 'D' {
        'Đ'
    } else {
        'đ'
    }
}

/// The letter `d` without its stroke, in the case of `ch`.
pub open spec fn unstroked_spec(ch: char) -> char {
    if ch == 'Đ' {
        'D'
    } else {
        'd'
    }
}

/// The stroke key pressed again: a final `đ` loses its stroke, and the
/// key follows as a letter.
pub open spec fn stroke_escape_spec(w: Seq<char>, key: char) -> Option<Outcome> {
    if w.len() > 0 && (w.last() == 'đ' || w.last() == 'Đ') {
        Some(
            escaped(
                w.len() as int,
                w.update(w.len() - 1, unstroked_spec(w.last())).push(key),
                w.len() - 1,
            ),
        )
    } else {
        None
    }
}

/// The stroke key on a word whose last character is the key itself: the
/// nearest `d` or `D` within the window gets its stroke, and the key goes.
pub open spec fn d_stroke_spec(word: WordModel, key: char) -> Option<Outcome> {
    let n = word.buffer.len() - 1;
    if word.buffer.len() == 0 {
        None
    } else {
        match last_hit(
            word.buffer,
            n,
            window_floor(n, FREE_TRANSFORM_WINDOW as int),
            Probe::PlainD,
        ) {
            Some(i) => Some(
                transformed(
                    word,
                    n,
                    word.buffer.drop_last().update(i, stroked_spec(word.buffer[i])),
                    key,
                    WTransformKind::Unset,
                    i,
                ),
            ),
            None => None,
        }
    }
}

impl VitypeEngine {
    /// The stroke key, `d` in Telex and `9` in VNI, typed and now ending
    /// the word.
    pub fn try_d_stroke(&mut self, key: char) -> (r: Option<KeyTransformAction>)
        ensures
            step_matches(old(self), final(self), r, d_stroke_spec(old(self).word(), key)),
    {
        if self.buffer.len() == 0 {
            return None;
        }
        let n = self.buffer.len() - 1;
        let ghost w = self.buffer@.drop_last();
        match find_last_hit(&self.buffer, n, window_start(n, FREE_TRANSFORM_WINDOW), Probe::PlainD) {
            Some(index) => {
                let stroked = if self.buffer[index] == 'D' {
                    'Đ'
                } else {
                    'đ'
                };
                self.buffer.pop();
                self.buffer[index] = stroked;
                self.last_transform_key = Some(key);
                self.last_w_transform_kind = WTransformKind::Unset;
                assert(self.buffer@ =~= w.update(index as int, stroked));
                Some(self.action_from(n, index))
            },
            None => None,
        }
    }

    /// Takes the stroke off a final `đ` and appends `key` as a letter.
    pub fn escape_final_stroke(&mut self, key: char, suppress_key: char) -> (r: Option<
        KeyTransformAction,
    >)
        ensures
            step_matches(
                old(self),
                final(self),
                r,
                stroke_escape_spec(old(self).buffer@, key),
            ),
    {
        let n = self.buffer.len();
        let ghost w = self.buffer@;
        if n == 0 {
            return None;
        }
        let last_char = self.buffer[n - 1];
        if last_char == 'đ' || last_char == 'Đ' {
            let d_char = if last_char == 'Đ' {
                'D'
            } else {
                'd'
            };
            self.buffer[n - 1] = d_char;
            self.buffer.push(key);
            self.clear_last_transform_and_suppress(suppress_key);
            assert(self.buffer@ =~= w.update(n - 1, d_char).push(key));
            Some(self.action_from(n, n - 1))
        } else {
            None
        }
    }
}

} // verus!
