use vstd::prelude::*;

verus! {

/// The two typing conventions.
#[derive(Clone, Copy, Debug, PartialEq, Eq, Structural)]
pub enum InputMethod {
    Telex,
    Vni,
}

/// Which rule the last horn key fired, so that pressing the key again
/// undoes that rule and no other.
#[derive(Clone, Copy, Debug, PartialEq, Eq, Structural)]
pub enum WTransformKind {
    Unset,
    Standalone,
    CompoundUow,
    CompoundUoiw,
    CompoundUoFinalConsonantW,
    CompoundUaw,
}

/// What the host does to its display after a key: delete the last
/// `delete_count` characters, then append `text`.
#[derive(Clone, Debug, PartialEq, Eq)]
pub struct KeyTransformAction {
    pub delete_count: usize,
    pub text: String,
}

/// A rewrite action as a mathematical value.
pub struct Rewrite {
    pub delete_count: int,
    pub text: Seq<char>,
}

impl View for KeyTransformAction {
    type V = Rewrite;

    open spec fn view(&self) -> Rewrite {
        Rewrite { delete_count: self.delete_count as int, text: self.text@ }
    }
}

/// The word in progress and what the engine remembers about it.
pub struct WordModel {
    pub buffer: Seq<char>,
    pub last_transform_key: Option<char>,
    pub last_w_transform_kind: WTransformKind,
    pub foreign_mode: bool,
}

/// What a key that fired did: the word after it and the rewrite it emits.
pub struct Outcome {
    pub word: WordModel,
    pub rewrite: Rewrite,
}

/// The rewrite that replaces everything from `start` on: it deletes the
/// displayed characters from `start` and appends the word's new tail.
pub open spec fn rewrite_at(display_len: int, buffer: Seq<char>, start: int) -> Rewrite {
    Rewrite { delete_count: display_len - start, text: buffer.subrange(start, buffer.len() as int) }
}

/// A rewrite fits a display when it deletes no more than is displayed and
/// turns the display into `buffer`.
pub open spec fn rewrite_fits(display: Seq<char>, buffer: Seq<char>, rewrite: Rewrite) -> bool {
    &&& 0 <= rewrite.delete_count <= display.len()
    &&& buffer == display.take(display.len() - rewrite.delete_count) + rewrite.text
}

/// The display after the host has carried out what a key returned: the
/// rewrite where there is one, the key itself where there is none.
pub open spec fn display_after(display: Seq<char>, key: char, rewrite: Option<Rewrite>) -> Seq<
    char,
> {
    match rewrite {
        Some(rw) => display.take(display.len() - rw.delete_count) + rw.text,
        None => display.push(key),
    }
}

/// The first of two outcomes that is one.
pub open spec fn or_outcome(a: Option<Outcome>, b: Option<Outcome>) -> Option<Outcome> {
    if a is Some {
        a
    } else {
        b
    }
}

/// What a key returned, as a mathematical value.
pub open spec fn action_view(action: Option<KeyTransformAction>) -> Option<Rewrite> {
    match action {
        Some(a) => Some(a@),
        None => None,
    }
}

/// A word as it was when a boundary closed it.
#[derive(Clone, Debug, PartialEq, Eq)]
pub struct WordSnapshot {
    pub chars: Vec<char>,
    pub last_transform_key: Option<char>,
    pub last_w_kind: WTransformKind,
    pub was_foreign: bool,
}

/// One entry of the history: a closed word, or the boundary after it.
#[derive(Clone, Debug, PartialEq, Eq)]
pub enum HistorySegment {
    Word(WordSnapshot),
    Boundary(char),
}

/// `String::push` appends one character to the string.
pub assume_specification[ String::push ](s: &mut String, ch: char)
    ensures
        final(s)@ == old(s)@.push(ch),
;

} // verus!
