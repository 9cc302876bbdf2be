use vstd::prelude::*;
use crate::common::{InputMethod, WordModel};
use crate::letters::{lemma_lower_idempotent, lower_char, lower_char_spec};
use crate::process::{is_word_boundary_spec, transform_spec};
use crate::telex::{is_telex_tone_letter, is_telex_word_boundary, is_telex_word_boundary_spec};
use crate::vni::{
    is_vni_tone_key_spec, is_vni_word_boundary, is_vni_word_boundary_spec, vni_tone_key_to_internal,
    vni_tone_key_to_internal_spec,
};

verus! {

/// The shape that a key types. The Telex key `w` types a breve on `a`
/// and a horn on `o` and `u`.
#[derive(Clone, Copy, Debug, PartialEq, Eq, Structural)]
pub enum KeyShape {
    Circumflex,
    Horn,
    Breve,
    BreveOrHorn,
}

/// What a key is under an input method. A tone key carries its tone as
/// the Telex letter that types it, `z` for the key that removes a tone.
#[derive(Clone, Copy, Debug, PartialEq, Eq, Structural)]
pub enum KeyClass {
    Boundary,
    ToneKey(char),
    ShapeKey(KeyShape),
    ConsonantStrokeKey,
    Literal,
}

/// Telex: white space, punctuation and digits end a word; `s f r x j z`
/// are tone keys, `a e o w` shape keys, `d` the stroke key, in either
/// case. VNI: white space and punctuation end a word; `0` to `5` are tone
/// keys, `6 7 8` shape keys, `9` the stroke key. All else is a letter.
pub open spec fn classify_spec(ch: char, method: InputMethod) -> KeyClass {
    let l = lower_char_spec(ch);
    match method {
        InputMethod::Telex => if is_telex_word_boundary_spec(ch) {
            KeyClass::Boundary
        } else if is_telex_tone_letter(l) {
            KeyClass::ToneKey(l)
        } else if l == 'a' || l == 'e' || l == 'o' {
            KeyClass::ShapeKey(KeyShape::Circumflex)
        } else if l == 'w' {
            KeyClass::ShapeKey(KeyShape::BreveOrHorn)
        } else if l == 'd' {
            KeyClass::ConsonantStrokeKey
        } else {
            KeyClass::Literal
        },
        InputMethod::Vni => if is_vni_word_boundary_spec(ch) {
            KeyClass::Boundary
        } else if is_vni_tone_key_spec(ch) {
            KeyClass::ToneKey(vni_tone_key_to_internal_spec(ch)->0)
        } else if ch == '6' {
            KeyClass::ShapeKey(KeyShape::Circumflex)
        } else if ch == '7' {
            KeyClass::ShapeKey(KeyShape::Horn)
        } else if ch == '8' {
            KeyClass::ShapeKey(KeyShape::Breve)
        } else if ch == '9' {
            KeyClass::ConsonantStrokeKey
        } else {
            KeyClass::Literal
        },
    }
}

/// What a key is under an input method.
pub fn classify(ch: char, method: InputMethod) -> (r: KeyClass)
    ensures
        r == classify_spec(ch, method),
        r is Boundary <==> is_word_boundary_spec(ch, method),
{
    match method {
        InputMethod::Telex => {
            let l = lower_char(ch);
            if is_telex_word_boundary(ch) {
                KeyClass::Boundary
            } else if l == 's' || l == 'f' || l == 'r' || l == 'x' || l == 'j' || l == 'z' {
                KeyClass::ToneKey(l)
            } else if l == 'a' || l == 'e' || l == 'o' {
                KeyClass::ShapeKey(KeyShape::Circumflex)
            } else if l == 'w' {
                KeyClass::ShapeKey(KeyShape::BreveOrHorn)
            } else if l == 'd' {
                KeyClass::ConsonantStrokeKey
            } else {
                KeyClass::Literal
            }
        },
        InputMethod::Vni => {
            if is_vni_word_boundary(ch) {
                KeyClass::Boundary
            } else {
                match vni_tone_key_to_internal(ch) {
                    Some(tone) => KeyClass::ToneKey(tone),
                    None => if ch == '6' {
                        KeyClass::ShapeKey(KeyShape::Circumflex)
                    } else if ch == '7' {
                        KeyClass::ShapeKey(KeyShape::Horn)
                    } else if ch == '8' {
                        KeyClass::ShapeKey(KeyShape::Breve)
                    } else if ch == '9' {
                        KeyClass::ConsonantStrokeKey
                    } else {
                        KeyClass::Literal
                    },
                }
            }
        },
    }
}

/// Whether a key repeats the key of the last transform, and so may undo
/// it: the same key in VNI, the same letter in either case in Telex.
pub open spec fn is_escape_candidate_spec(
    last_key: Option<char>,
    ch: char,
    method: InputMethod,
) -> bool {
    match last_key {
        Some(k) => match method {
            InputMethod::Telex => lower_char_spec(k) == lower_char_spec(ch),
            InputMethod::Vni => k == ch,
        },
        None => false,
    }
}

/// Whether a key repeats the key of the last transform.
pub fn is_escape_candidate(last_key: Option<char>, ch: char, method: InputMethod) -> (r: bool)
    ensures
        r == is_escape_candidate_spec(last_key, ch, method),
{
    match last_key {
        Some(k) => match method {
            InputMethod::Telex => lower_char(k) == lower_char(ch),
            InputMethod::Vni => k == ch,
        },
        None => false,
    }
}

/// A key that is a letter transforms no word: only tone keys, shape keys
/// and the stroke key do.
pub proof fn lemma_letters_transform_nothing(
    word: WordModel,
    method: InputMethod,
    ch: char,
    auto_fix: bool,
    relaxed: bool,
)
    requires
        classify_spec(ch, method) is Literal,
    ensures
        transform_spec(word, method, ch, auto_fix, relaxed) is None,
{
    lemma_lower_idempotent(ch);
}

} // verus!
