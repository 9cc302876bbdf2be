use vstd::prelude::*;
use crate::letters::{is_separator_spec, is_upper, is_upper_spec, lower_char, lower_char_spec};

verus! {

/// The three marks that change the shape of a vowel.
#[derive(Clone, Copy, Debug, PartialEq, Eq, Structural)]
pub enum VowelShape {
    Circumflex,
    Horn,
    Breve,
}

/// The five tone marks, each named by the letter that types it:
/// `s` acute, `f` grave, `r` hook above, `x` tilde, `j` dot below.
pub open spec fn is_tone_letter(tone: char) -> bool {
    tone == 's' || tone == 'f' || tone == 'r' || tone == 'x' || tone == 'j'
}

/// The vowel `base` carrying the tone `tone`, for the twenty-four vowels
/// (twelve letters in two cases) and the five tones.
#[verifier::opaque]
pub open spec fn toned_spec(base: char, tone: char) -> Option<char> {
    match base {
        'a' => match tone {
            's' => Some('á'),
            'f' => Some('à'),
            'r' => Some('ả'),
            'x' => Some('ã'),
            'j' => Some('ạ'),
            _ => None,
        },
        'A' => match tone {
            's' => Some('Á'),
            'f' => Some('À'),
            'r' => Some('Ả'),
            'x' => Some('Ã'),
            'j' => Some('Ạ'),
            _ => None,
        },
        'ă' => match tone {
            's' => Some('ắ'),
            'f' => Some('ằ'),
            'r' => Some('ẳ'),
            'x' => Some('ẵ'),
            'j' => Some('ặ'),
            _ => None,
        },
        'Ă' => match tone {
            's' => Some('Ắ'),
            'f' => Some('Ằ'),
            'r' => Some('Ẳ'),
            'x' => Some('Ẵ'),
            'j' => Some('Ặ'),
            _ => None,
        },
        'â' => match tone {
            's' => Some('ấ'),
            'f' => Some('ầ'),
            'r' => Some('ẩ'),
            'x' => Some('ẫ'),
            'j' => Some('ậ'),
            _ => None,
        },
        'Â' => match tone {
            's' => Some('Ấ'),
            'f' => Some('Ầ'),
            'r' => Some('Ẩ'),
            'x' => Some('Ẫ'),
            'j' => Some('Ậ'),
            _ => None,
        },
        'e' => match tone {
            's' => Some('é'),
            'f' => Some('è'),
            'r' => Some('ẻ'),
            'x' => Some('ẽ'),
            'j' => Some('ẹ'),
            _ => None,
        },
        'E' => match tone {
            's' => Some('É'),
            'f' => Some('È'),
            'r' => Some('Ẻ'),
            'x' => Some('Ẽ'),
            'j' => Some('Ẹ'),
            _ => None,
        },
        'ê' => match tone {
            's' => Some('ế'),
            'f' => Some('ề'),
            'r' => Some('ể'),
            'x' => Some('ễ'),
            'j' => Some('ệ'),
            _ => None,
        },
        'Ê' => match tone {
            's' => Some('Ế'),
            'f' => Some('Ề'),
            'r' => Some('Ể'),
            'x' => Some('Ễ'),
            'j' => Some('Ệ'),
            _ => None,
        },
        'i' => match tone {
            's' => Some('í'),
            'f' => Some('ì'),
            'r' => Some('ỉ'),
            'x' => Some('ĩ'),
            'j' => Some('ị'),
            _ => None,
        },
        'I' => match tone {
            's' => Some('Í'),
            'f' => Some('Ì'),
            'r' => Some('Ỉ'),
            'x' => Some('Ĩ'),
            'j' => Some('Ị'),
            _ => None,
        },
        'o' => match tone {
            's' => Some('ó'),
            'f' => Some('ò'),
            'r' => Some('ỏ'),
            'x' => Some('õ'),
            'j' => Some('ọ'),
            _ => None,
        },
        'O' => match tone {
            's' => Some('Ó'),
            'f' => Some('Ò'),
            'r' => Some('Ỏ'),
            'x' => Some('Õ'),
            'j' => Some('Ọ'),
            _ => None,
        },
        'ô' => match tone {
            's' => Some('ố'),
            'f' => Some('ồ'),
            'r' => Some('ổ'),
            'x' => Some('ỗ'),
            'j' => Some('ộ'),
            _ => None,
        },
        'Ô' => match tone {
            's' => Some('Ố'),
            'f' => Some('Ồ'),
            'r' => Some('Ổ'),
            'x' => Some('Ỗ'),
            'j' => Some('Ộ'),
            _ => None,
        },
        'ơ' => match tone {
            's' => Some('ớ'),
            'f' => Some('ờ'),
            'r' => Some('ở'),
            'x' => Some('ỡ'),
            'j' => Some('ợ'),
            _ => None,
        },
        'Ơ' => match tone {
            's' => Some('Ớ'),
            'f' => Some('Ờ'),
            'r' => Some('Ở'),
            'x' => Some('Ỡ'),
            'j' => Some('Ợ'),
            _ => None,
        },
        'u' => match tone {
            's' => Some('ú'),
            'f' => Some('ù'),
            'r' => Some('ủ'),
            'x' => Some('ũ'),
            'j' => Some('ụ'),
            _ => None,
        },
        'U' => match tone {
            's' => Some('Ú'),
            'f' => Some('Ù'),
            'r' => Some('Ủ'),
            'x' => Some('Ũ'),
            'j' => Some('Ụ'),
            _ => None,
        },
        'ư' => match tone {
            's' => Some('ứ'),
            'f' => Some('ừ'),
            'r' => Some('ử'),
            'x' => Some('ữ'),
            'j' => Some('ự'),
            _ => None,
        },
        'Ư' => match tone {
            's' => Some('Ứ'),
            'f' => Some('Ừ'),
            'r' => Some('Ử'),
            'x' => Some('Ữ'),
            'j' => Some('Ự'),
            _ => None,
        },
        'y' => match tone {
            's' => Some('ý'),
            'f' => Some('ỳ'),
            'r' => Some('ỷ'),
            'x' => Some('ỹ'),
            'j' => Some('ỵ'),
            _ => None,
        },
        'Y' => match tone {
            's' => Some('Ý'),
            'f' => Some('Ỳ'),
            'r' => Some('Ỷ'),
            'x' => Some('Ỹ'),
            'j' => Some('Ỵ'),
            _ => None,
        },
        _ => None,
    }
}

/// The vowel under a tone mark and the mark, read off the table backwards;
/// a character without a tone mark stands for itself.
#[verifier::opaque]
pub open spec fn split_spec(ch: char) -> (char, Option<char>) {
    match ch {
        'á' => ('a', Some('s')),
        'à' => ('a', Some('f')),
        'ả' => ('a', Some('r')),
        'ã' => ('a', Some('x')),
        'ạ' => ('a', Some('j')),
        'Á' => ('A', Some('s')),
        'À' => ('A', Some('f')),
        'Ả' => ('A', Some('r')),
        'Ã' => ('A', Some('x')),
        'Ạ' => ('A', Some('j')),
        'ắ' => ('ă', Some('s')),
        'ằ' => ('ă', Some('f')),
        'ẳ' => ('ă', Some('r')),
        'ẵ' => ('ă', Some('x')),
        'ặ' => ('ă', Some('j')),
        'Ắ' => ('Ă', Some('s')),
        'Ằ' => ('Ă', Some('f')),
        'Ẳ' => ('Ă', Some('r')),
        'Ẵ' => ('Ă', Some('x')),
        'Ặ' => ('Ă', Some('j')),
        'ấ' => ('â', Some('s')),
        'ầ' => ('â', Some('f')),
        'ẩ' => ('â', Some('r')),
        'ẫ' => ('â', Some('x')),
        'ậ' => ('â', Some('j')),
        'Ấ' => ('Â', Some('s')),
        'Ầ' => ('Â', Some('f')),
        'Ẩ' => ('Â', Some('r')),
        'Ẫ' => ('Â', Some('x')),
        'Ậ' => ('Â', Some('j')),
        'é' => ('e', Some('s')),
        'è' => ('e', Some('f')),
        'ẻ' => ('e', Some('r')),
        'ẽ' => ('e', Some('x')),
        'ẹ' => ('e', Some('j')),
        'É' => ('E', Some('s')),
        'È' => ('E', Some('f')),
        'Ẻ' => ('E', Some('r')),
        'Ẽ' => ('E', Some('x')),
        'Ẹ' => ('E', Some('j')),
        'ế' => ('ê', Some('s')),
        'ề' => ('ê', Some('f')),
        'ể' => ('ê', Some('r')),
        'ễ' => ('ê', Some('x')),
        'ệ' => ('ê', Some('j')),
        'Ế' => ('Ê', Some('s')),
        'Ề' => ('Ê', Some('f')),
        'Ể' => ('Ê', Some('r')),
        'Ễ' => ('Ê', Some('x')),
        'Ệ' => ('Ê', Some('j')),
        'í' => ('i', Some('s')),
        'ì' => ('i', Some('f')),
        'ỉ' => ('i', Some('r')),
        'ĩ' => ('i', Some('x')),
        'ị' => ('i', Some('j')),
        'Í' => ('I', Some('s')),
        'Ì' => ('I', Some('f')),
        'Ỉ' => ('I', Some('r')),
        'Ĩ' => ('I', Some('x')),
        'Ị' => ('I', Some('j')),
        'ó' => ('o', Some('s')),
        'ò' => ('o', Some('f')),
        'ỏ' => ('o', Some('r')),
        'õ' => ('o', Some('x')),
        'ọ' => ('o', Some('j')),
        'Ó' => ('O', Some('s')),
        'Ò' => ('O', Some('f')),
        'Ỏ' => ('O', Some('r')),
        'Õ' => ('O', Some('x')),
        'Ọ' => ('O', Some('j')),
        'ố' => ('ô', Some('s')),
        'ồ' => ('ô', Some('f')),
        'ổ' => ('ô', Some('r')),
        'ỗ' => ('ô', Some('x')),
        'ộ' => ('ô', Some('j')),
        'Ố' => ('Ô', Some('s')),
        'Ồ' => ('Ô', Some('f')),
        'Ổ' => ('Ô', Some('r')),
        'Ỗ' => ('Ô', Some('x')),
        'Ộ' => ('Ô', Some('j')),
        'ớ' => ('ơ', Some('s')),
        'ờ' => ('ơ', Some('f')),
        'ở' => ('ơ', Some('r')),
        'ỡ' => ('ơ', Some('x')),
        'ợ' => ('ơ', Some('j')),
        'Ớ' => ('Ơ', Some('s')),
        'Ờ' => ('Ơ', Some('f')),
        'Ở' => ('Ơ', Some('r')),
        'Ỡ' => ('Ơ', Some('x')),
        'Ợ' => ('Ơ', Some('j')),
        'ú' => ('u', Some('s')),
        'ù' => ('u', Some('f')),
        'ủ' => ('u', Some('r')),
        'ũ' => ('u', Some('x')),
        'ụ' => ('u', Some('j')),
        'Ú' => ('U', Some('s')),
        'Ù' => ('U', Some('f')),
        'Ủ' => ('U', Some('r')),
        'Ũ' => ('U', Some('x')),
        'Ụ' => ('U', Some('j')),
        'ứ' => ('ư', Some('s')),
        'ừ' => ('ư', Some('f')),
        'ử' => ('ư', Some('r')),
        'ữ' => ('ư', Some('x')),
        'ự' => ('ư', Some('j')),
        'Ứ' => ('Ư', Some('s')),
        'Ừ' => ('Ư', Some('f')),
        'Ử' => ('Ư', Some('r')),
        'Ữ' => ('Ư', Some('x')),
        'Ự' => ('Ư', Some('j')),
        'ý' => ('y', Some('s')),
        'ỳ' => ('y', Some('f')),
        'ỷ' => ('y', Some('r')),
        'ỹ' => ('y', Some('x')),
        'ỵ' => ('y', Some('j')),
        'Ý' => ('Y', Some('s')),
        'Ỳ' => ('Y', Some('f')),
        'Ỷ' => ('Y', Some('r')),
        'Ỹ' => ('Y', Some('x')),
        'Ỵ' => ('Y', Some('j')),
        _ => (ch, None),
    }
}

/// A vowel under a tone; without a tone, the vowel itself.
pub open spec fn apply_tone_spec(base: char, tone: Option<char>) -> Option<char> {
    match tone {
        Some(t) => toned_spec(base, t),
        None => Some(base),
    }
}

/// The vowel that a shape mark makes of an untoned vowel. A circumflex
/// also replaces a breve or a horn, a horn a circumflex, a breve a circumflex.
pub open spec fn apply_shape_spec(base: char, kind: VowelShape) -> Option<char> {
    match kind {
        VowelShape::Circumflex => match base {
            'a' | 'ă' => Some('â'),
            'A' | 'Ă' => Some('Â'),
            'e' => Some('ê'),
            'E' => Some('Ê'),
            'o' | 'ơ' => Some('ô'),
            'O' | 'Ơ' => Some('Ô'),
            _ => None,
        },
        VowelShape::Horn => match base {
            'o' | 'ô' => Some('ơ'),
            'O' | 'Ô' => Some('Ơ'),
            'u' => Some('ư'),
            'U' => Some('Ư'),
            _ => None,
        },
        VowelShape::Breve => match base {
            'a' | 'â' => Some('ă'),
            'A' | 'Â' => Some('Ă'),
            _ => None,
        },
    }
}

/// The plain vowel under a shape mark, where `base` carries that mark.
pub open spec fn remove_shape_spec(base: char, kind: VowelShape) -> Option<char> {
    match kind {
        VowelShape::Circumflex => match base {
            'â' => Some('a'),
            'Â' => Some('A'),
            'ê' => Some('e'),
            'Ê' => Some('E'),
            'ô' => Some('o'),
            'Ô' => Some('O'),
            _ => None,
        },
        VowelShape::Horn => match base {
            'ơ' => Some('o'),
            'Ơ' => Some('O'),
            'ư' => Some('u'),
            'Ư' => Some('U'),
            _ => None,
        },
        VowelShape::Breve => match base {
            'ă' => Some('a'),
            'Ă' => Some('A'),
            _ => None,
        },
    }
}

/// What the Telex key `w` makes of an untoned vowel: a breve on `a`, a horn
/// on `o`, `ô` and `u`. An `ă` or `ư` stays as it is, but only without a tone.
pub open spec fn telex_w_shape_spec(base: char, has_tone: bool) -> Option<char> {
    match base {
        'a' => Some('ă'),
        'A' => Some('Ă'),
        'ă' => if has_tone { None } else { Some('ă') },
        'Ă' => if has_tone { None } else { Some('Ă') },
        'o' | 'ô' => Some('ơ'),
        'O' | 'Ô' => Some('Ơ'),
        'u' => Some('ư'),
        'U' => Some('Ư'),
        'ư' => if has_tone { None } else { Some('ư') },
        'Ư' => if has_tone { None } else { Some('Ư') },
        _ => None,
    }
}

/// A vowel with a shape put on, its tone kept.
pub open spec fn apply_shape_preserving_tone_spec(ch: char, kind: VowelShape) -> Option<char> {
    let (base, tone) = split_spec(ch);
    match apply_shape_spec(base, kind) {
        Some(shaped) => apply_tone_spec(shaped, tone),
        None => None,
    }
}

/// A vowel with a shape taken off, its tone kept.
pub open spec fn escape_shape_preserving_tone_spec(ch: char, kind: VowelShape) -> Option<char> {
    let (base, tone) = split_spec(ch);
    match remove_shape_spec(base, kind) {
        Some(plain) => apply_tone_spec(plain, tone),
        None => None,
    }
}

/// What the Telex key `w` makes of a vowel, its tone kept.
pub open spec fn apply_telex_w_preserving_tone_spec(ch: char) -> Option<char> {
    let (base, tone) = split_spec(ch);
    match telex_w_shape_spec(base, tone is Some) {
        Some(shaped) => apply_tone_spec(shaped, tone),
        None => None,
    }
}

/// The untoned, lower-case letter of a character.
pub open spec fn base_lower_spec(ch: char) -> char {
    lower_char_spec(split_spec(ch).0)
}

/// Splits a toned vowel into the vowel and its tone; any other character
/// comes back unchanged and without a tone. The case stays with the vowel.
pub fn split_vowel_and_tone(ch: char) -> (r: (char, Option<char>))
    ensures
        r == split_spec(ch),
        r.1 is None ==> r.0 == ch,
        r.1 is Some ==> is_tone_letter(r.1->0) && toned_spec(r.0, r.1->0) == Some(ch),
        is_upper_spec(r.0) == is_upper_spec(ch),
{
    proof {
        reveal(split_spec);
        reveal(toned_spec);
        reveal(lower_char_spec);
    }
    match ch {
        'á' => ('a', Some('s')),
        'à' => ('a', Some('f')),
        'ả' => ('a', Some('r')),
        'ã' => ('a', Some('x')),
        'ạ' => ('a', Some('j')),
        'Á' => ('A', Some('s')),
        'À' => ('A', Some('f')),
        'Ả' => ('A', Some('r')),
        'Ã' => ('A', Some('x')),
        'Ạ' => ('A', Some('j')),
        'ắ' => ('ă', Some('s')),
        'ằ' => ('ă', Some('f')),
        'ẳ' => ('ă', Some('r')),
        'ẵ' => ('ă', Some('x')),
        'ặ' => ('ă', Some('j')),
        'Ắ' => ('Ă', Some('s')),
        'Ằ' => ('Ă', Some('f')),
        'Ẳ' => ('Ă', Some('r')),
        'Ẵ' => ('Ă', Some('x')),
        'Ặ' => ('Ă', Some('j')),
        'ấ' => ('â', Some('s')),
        'ầ' => ('â', Some('f')),
        'ẩ' => ('â', Some('r')),
        'ẫ' => ('â', Some('x')),
        'ậ' => ('â', Some('j')),
        'Ấ' => ('Â', Some('s')),
        'Ầ' => ('Â', Some('f')),
        'Ẩ' => ('Â', Some('r')),
        'Ẫ' => ('Â', Some('x')),
        'Ậ' => ('Â', Some('j')),
        'é' => ('e', Some('s')),
        'è' => ('e', Some('f')),
        'ẻ' => ('e', Some('r')),
        'ẽ' => ('e', Some('x')),
        'ẹ' => ('e', Some('j')),
        'É' => ('E', Some('s')),
        'È' => ('E', Some('f')),
        'Ẻ' => ('E', Some('r')),
        'Ẽ' => ('E', Some('x')),
        'Ẹ' => ('E', Some('j')),
        'ế' => ('ê', Some('s')),
        'ề' => ('ê', Some('f')),
        'ể' => ('ê', Some('r')),
        'ễ' => ('ê', Some('x')),
        'ệ' => ('ê', Some('j')),
        'Ế' => ('Ê', Some('s')),
        'Ề' => ('Ê', Some('f')),
        'Ể' => ('Ê', Some('r')),
        'Ễ' => ('Ê', Some('x')),
        'Ệ' => ('Ê', Some('j')),
        'í' => ('i', Some('s')),
        'ì' => ('i', Some('f')),
        'ỉ' => ('i', Some('r')),
        'ĩ' => ('i', Some('x')),
        'ị' => ('i', Some('j')),
        'Í' => ('I', Some('s')),
        'Ì' => ('I', Some('f')),
        'Ỉ' => ('I', Some('r')),
        'Ĩ' => ('I', Some('x')),
        'Ị' => ('I', Some('j')),
        'ó' => ('o', Some('s')),
        'ò' => ('o', Some('f')),
        'ỏ' => ('o', Some('r')),
        'õ' => ('o', Some('x')),
        'ọ' => ('o', Some('j')),
        'Ó' => ('O', Some('s')),
        'Ò' => ('O', Some('f')),
        'Ỏ' => ('O', Some('r')),
        'Õ' => ('O', Some('x')),
        'Ọ' => ('O', Some('j')),
        'ố' => ('ô', Some('s')),
        'ồ' => ('ô', Some('f')),
        'ổ' => ('ô', Some('r')),
        'ỗ' => ('ô', Some('x')),
        'ộ' => ('ô', Some('j')),
        'Ố' => ('Ô', Some('s')),
        'Ồ' => ('Ô', Some('f')),
        'Ổ' => ('Ô', Some('r')),
        'Ỗ' => ('Ô', Some('x')),
        'Ộ' => ('Ô', Some('j')),
        'ớ' => ('ơ', Some('s')),
        'ờ' => ('ơ', Some('f')),
        'ở' => ('ơ', Some('r')),
        'ỡ' => ('ơ', Some('x')),
        'ợ' => ('ơ', Some('j')),
        'Ớ' => ('Ơ', Some('s')),
        'Ờ' => ('Ơ', Some('f')),
        'Ở' => ('Ơ', Some('r')),
        'Ỡ' => ('Ơ', Some('x')),
        'Ợ' => ('Ơ', Some('j')),
        'ú' => ('u', Some('s')),
        'ù' => ('u', Some('f')),
        'ủ' => ('u', Some('r')),
        'ũ' => ('u', Some('x')),
        'ụ' => ('u', Some('j')),
        'Ú' => ('U', Some('s')),
        'Ù' => ('U', Some('f')),
        'Ủ' => ('U', Some('r')),
        'Ũ' => ('U', Some('x')),
        'Ụ' => ('U', Some('j')),
        'ứ' => ('ư', Some('s')),
        'ừ' => ('ư', Some('f')),
        'ử' => ('ư', Some('r')),
        'ữ' => ('ư', Some('x')),
        'ự' => ('ư', Some('j')),
        'Ứ' => ('Ư', Some('s')),
        'Ừ' => ('Ư', Some('f')),
        'Ử' => ('Ư', Some('r')),
        'Ữ' => ('Ư', Some('x')),
        'Ự' => ('Ư', Some('j')),
        'ý' => ('y', Some('s')),
        'ỳ' => ('y', Some('f')),
        'ỷ' => ('y', Some('r')),
        'ỹ' => ('y', Some('x')),
        'ỵ' => ('y', Some('j')),
        'Ý' => ('Y', Some('s')),
        'Ỳ' => ('Y', Some('f')),
        'Ỷ' => ('Y', Some('r')),
        'Ỹ' => ('Y', Some('x')),
        'Ỵ' => ('Y', Some('j')),
        _ => (ch, None),
    }
}

/// Puts a tone on a vowel. Without a tone the vowel comes back as it is;
/// a pair that the table does not hold gives `None`.
pub fn apply_tone(base: char, tone: Option<char>) -> (r: Option<char>)
    ensures
        r == apply_tone_spec(base, tone),
        tone is None ==> r == Some(base),
        r is Some ==> is_upper_spec(r->0) == is_upper_spec(base),
        r is Some && tone is Some ==> split_spec(r->0) == (base, tone),
{
    proof {
        reveal(split_spec);
        reveal(toned_spec);
        reveal(lower_char_spec);
    }
    match tone {
        Some(t) => toned_of(base, t),
        None => Some(base),
    }
}

fn toned_of(base: char, tone: char) -> (r: Option<char>)
    ensures
        r == toned_spec(base, tone),
{
    proof {
        reveal(split_spec);
        reveal(toned_spec);
        reveal(lower_char_spec);
    }
    match base {
        'a' => match tone {
            's' => Some('á'),
            'f' => Some('à'),
            'r' => Some('ả'),
            'x' => Some('ã'),
            'j' => Some('ạ'),
            _ => None,
        },
        'A' => match tone {
            's' => Some('Á'),
            'f' => Some('À'),
            'r' => Some('Ả'),
            'x' => Some('Ã'),
            'j' => Some('Ạ'),
            _ => None,
        },
        'ă' => match tone {
            's' => Some('ắ'),
            'f' => Some('ằ'),
            'r' => Some('ẳ'),
            'x' => Some('ẵ'),
            'j' => Some('ặ'),
            _ => None,
        },
        'Ă' => match tone {
            's' => Some('Ắ'),
            'f' => Some('Ằ'),
            'r' => Some('Ẳ'),
            'x' => Some('Ẵ'),
            'j' => Some('Ặ'),
            _ => None,
        },
        'â' => match tone {
            's' => Some('ấ'),
            'f' => Some('ầ'),
            'r' => Some('ẩ'),
            'x' => Some('ẫ'),
            'j' => Some('ậ'),
            _ => None,
        },
        'Â' => match tone {
            's' => Some('Ấ'),
            'f' => Some('Ầ'),
            'r' => Some('Ẩ'),
            'x' => Some('Ẫ'),
            'j' => Some('Ậ'),
            _ => None,
        },
        'e' => match tone {
            's' => Some('é'),
            'f' => Some('è'),
            'r' => Some('ẻ'),
            'x' => Some('ẽ'),
            'j' => Some('ẹ'),
            _ => None,
        },
        'E' => match tone {
            's' => Some('É'),
            'f' => Some('È'),
            'r' => Some('Ẻ'),
            'x' => Some('Ẽ'),
            'j' => Some('Ẹ'),
            _ => None,
        },
        'ê' => match tone {
            's' => Some('ế'),
            'f' => Some('ề'),
            'r' => Some('ể'),
            'x' => Some('ễ'),
            'j' => Some('ệ'),
            _ => None,
        },
        'Ê' => match tone {
            's' => Some('Ế'),
            'f' => Some('Ề'),
            'r' => Some('Ể'),
            'x' => Some('Ễ'),
            'j' => Some('Ệ'),
            _ => None,
        },
        'i' => match tone {
            's' => Some('í'),
            'f' => Some('ì'),
            'r' => Some('ỉ'),
            'x' => Some('ĩ'),
            'j' => Some('ị'),
            _ => None,
        },
        'I' => match tone {
            's' => Some('Í'),
            'f' => Some('Ì'),
            'r' => Some('Ỉ'),
            'x' => Some('Ĩ'),
            'j' => Some('Ị'),
            _ => None,
        },
        'o' => match tone {
            's' => Some('ó'),
            'f' => Some('ò'),
            'r' => Some('ỏ'),
            'x' => Some('õ'),
            'j' => Some('ọ'),
            _ => None,
        },
        'O' => match tone {
            's' => Some('Ó'),
            'f' => Some('Ò'),
            'r' => Some('Ỏ'),
            'x' => Some('Õ'),
            'j' => Some('Ọ'),
            _ => None,
        },
        'ô' => match tone {
            's' => Some('ố'),
            'f' => Some('ồ'),
            'r' => Some('ổ'),
            'x' => Some('ỗ'),
            'j' => Some('ộ'),
            _ => None,
        },
        'Ô' => match tone {
            's' => Some('Ố'),
            'f' => Some('Ồ'),
            'r' => Some('Ổ'),
            'x' => Some('Ỗ'),
            'j' => Some('Ộ'),
            _ => None,
        },
        'ơ' => match tone {
            's' => Some('ớ'),
            'f' => Some('ờ'),
            'r' => Some('ở'),
            'x' => Some('ỡ'),
            'j' => Some('ợ'),
            _ => None,
        },
        'Ơ' => match tone {
            's' => Some('Ớ'),
            'f' => Some('Ờ'),
            'r' => Some('Ở'),
            'x' => Some('Ỡ'),
            'j' => Some('Ợ'),
            _ => None,
        },
        'u' => match tone {
            's' => Some('ú'),
            'f' => Some('ù'),
            'r' => Some('ủ'),
            'x' => Some('ũ'),
            'j' => Some('ụ'),
            _ => None,
        },
        'U' => match tone {
            's' => Some('Ú'),
            'f' => Some('Ù'),
            'r' => Some('Ủ'),
            'x' => Some('Ũ'),
            'j' => Some('Ụ'),
            _ => None,
        },
        'ư' => match tone {
            's' => Some('ứ'),
            'f' => Some('ừ'),
            'r' => Some('ử'),
            'x' => Some('ữ'),
            'j' => Some('ự'),
            _ => None,
        },
        'Ư' => match tone {
            's' => Some('Ứ'),
            'f' => Some('Ừ'),
            'r' => Some('Ử'),
            'x' => Some('Ữ'),
            'j' => Some('Ự'),
            _ => None,
        },
        'y' => match tone {
            's' => Some('ý'),
            'f' => Some('ỳ'),
            'r' => Some('ỷ'),
            'x' => Some('ỹ'),
            'j' => Some('ỵ'),
            _ => None,
        },
        'Y' => match tone {
            's' => Some('Ý'),
            'f' => Some('Ỳ'),
            'r' => Some('Ỷ'),
            'x' => Some('Ỹ'),
            'j' => Some('Ỵ'),
            _ => None,
        },
        _ => None,
    }
}

/// The untoned, lower-case letter of a character.
pub fn base_lower(ch: char) -> (r: char)
    ensures
        r == base_lower_spec(ch),
{
    let (base, _) = split_vowel_and_tone(ch);
    lower_char(base)
}

/// Puts a shape mark on an untoned vowel, in the vowel's own case.
pub fn apply_shape(base: char, kind: VowelShape) -> (r: Option<char>)
    ensures
        r == apply_shape_spec(base, kind),
        r is Some ==> is_upper_spec(r->0) == is_upper_spec(base),
{
    proof {
        reveal(split_spec);
        reveal(toned_spec);
        reveal(lower_char_spec);
    }
    let base_lower = lower_char(base);
    let upper = is_upper(base);
    match kind {
        VowelShape::Circumflex => match base_lower {
            'a' | 'ă' => Some(if upper { 'Â' } else { 'â' }),
            'e' => Some(if upper { 'Ê' } else { 'ê' }),
            'o' | 'ơ' => Some(if upper { 'Ô' } else { 'ô' }),
            _ => None,
        },
        VowelShape::Horn => match base_lower {
            'o' | 'ô' => Some(if upper { 'Ơ' } else { 'ơ' }),
            'u' => Some(if upper { 'Ư' } else { 'ư' }),
            _ => None,
        },
        VowelShape::Breve => match base_lower {
            'a' | 'â' => Some(if upper { 'Ă' } else { 'ă' }),
            _ => None,
        },
    }
}

/// Puts a shape mark on a vowel and keeps the tone that it carries.
pub fn apply_shape_preserving_tone(ch: char, kind: VowelShape) -> (r: Option<char>)
    ensures
        r == apply_shape_preserving_tone_spec(ch, kind),
        r is Some ==> is_upper_spec(r->0) == is_upper_spec(ch),
        r is Some ==> split_spec(r->0).1 == split_spec(ch).1,
        r is Some ==> apply_shape_spec(split_spec(ch).0, kind) == Some(split_spec(r->0).0),
{
    proof {
        reveal(split_spec);
        reveal(toned_spec);
        reveal(lower_char_spec);
    }
    let (base, tone) = split_vowel_and_tone(ch);
    match apply_shape(base, kind) {
        Some(shaped_base) => apply_tone(shaped_base, tone),
        None => None,
    }
}

/// Takes a shape mark off a vowel and keeps the tone that it carries.
/// `None` where the vowel does not carry that mark.
pub fn escape_shape_preserving_tone(ch: char, kind: VowelShape) -> (r: Option<char>)
    ensures
        r == escape_shape_preserving_tone_spec(ch, kind),
        r is Some ==> is_upper_spec(r->0) == is_upper_spec(ch),
        r is Some ==> split_spec(r->0).1 == split_spec(ch).1,
        r is Some ==> remove_shape_spec(split_spec(ch).0, kind) == Some(split_spec(r->0).0),
{
    proof {
        reveal(split_spec);
        reveal(toned_spec);
        reveal(lower_char_spec);
    }
    let (base, tone) = split_vowel_and_tone(ch);
    let base_lower = lower_char(base);
    let upper = is_upper(base);
    let unshaped = match kind {
        VowelShape::Circumflex => match base_lower {
            'â' => if upper { 'A' } else { 'a' },
            'ê' => if upper { 'E' } else { 'e' },
            'ô' => if upper { 'O' } else { 'o' },
            _ => { return None; },
        },
        VowelShape::Horn => match base_lower {
            'ơ' => if upper { 'O' } else { 'o' },
            'ư' => if upper { 'U' } else { 'u' },
            _ => { return None; },
        },
        VowelShape::Breve => match base_lower {
            'ă' => if upper { 'A' } else { 'a' },
            _ => { return None; },
        },
    };
    apply_tone(unshaped, tone)
}

/// The Telex key `w` on one vowel: a breve on `a`, a horn on `o`, `ô` and
/// `u`, the tone kept. An `ă` or `ư` that already carries a tone is refused.
pub fn apply_telex_w_preserving_tone(ch: char) -> (r: Option<char>)
    ensures
        r == apply_telex_w_preserving_tone_spec(ch),
        r is Some ==> is_upper_spec(r->0) == is_upper_spec(ch),
        r is Some ==> split_spec(r->0).1 == split_spec(ch).1,
{
    proof {
        reveal(split_spec);
        reveal(toned_spec);
        reveal(lower_char_spec);
    }
    let (base, tone) = split_vowel_and_tone(ch);
    let base_lower = lower_char(base);
    let upper = is_upper(base);
    let shaped_base = match base_lower {
        'a' => if upper { 'Ă' } else { 'ă' },
        'ă' => {
            if tone.is_some() {
                return None;
            }
            if upper { 'Ă' } else { 'ă' }
        },
        'o' | 'ô' => if upper { 'Ơ' } else { 'ơ' },
        'u' => if upper { 'Ư' } else { 'ư' },
        'ư' => {
            if tone.is_some() {
                return None;
            }
            if upper { 'Ư' } else { 'ư' }
        },
        _ => { return None; },
    };
    apply_tone(shaped_base, tone)
}

/// Splitting undoes toning: a vowel of the table splits into the vowel and
/// the tone that made it.
pub proof fn lemma_split_of_toned(base: char, tone: char)
    requires
        toned_spec(base, tone) is Some,
    ensures
        split_spec(toned_spec(base, tone)->0) == (base, Some(tone)),
        is_tone_letter(tone),
{
    reveal(split_spec);
    reveal(toned_spec);
    reveal(lower_char_spec);
}

/// Toning undoes splitting: a character that splits into a vowel and a
/// tone is that vowel under that tone; one that does not is untouched.
pub proof fn lemma_toned_of_split(ch: char)
    ensures
        apply_tone_spec(split_spec(ch).0, split_spec(ch).1) == Some(ch),
        split_spec(split_spec(ch).0) == (split_spec(ch).0, None::<char>),
{
    reveal(split_spec);
    reveal(toned_spec);
    reveal(lower_char_spec);
}

/// Taking a shape mark off again gives back the vowel it was put on,
/// tone and case included, where that vowel was a plain one.
pub proof fn lemma_escape_undoes_shape(ch: char, kind: VowelShape)
    requires
        apply_shape_preserving_tone_spec(ch, kind) is Some,
        remove_shape_spec(split_spec(ch).0, VowelShape::Circumflex) is None,
        remove_shape_spec(split_spec(ch).0, VowelShape::Horn) is None,
        remove_shape_spec(split_spec(ch).0, VowelShape::Breve) is None,
    ensures
        escape_shape_preserving_tone_spec(apply_shape_preserving_tone_spec(ch, kind)->0, kind)
            == Some(ch),
{
    reveal(split_spec);
    reveal(toned_spec);
    reveal(lower_char_spec);
}

/// No transform of a single vowel makes a separator: what comes out is a
/// letter, or the character that went in.
pub proof fn lemma_transforms_make_letters(ch: char, kind: VowelShape, tone: Option<char>)
    ensures
        is_separator_spec(split_spec(ch).0) ==> split_spec(ch).0 == ch,
        apply_tone_spec(ch, tone) is Some && is_separator_spec(apply_tone_spec(ch, tone)->0)
            ==> apply_tone_spec(ch, tone)->0 == ch,
        apply_shape_preserving_tone_spec(ch, kind) is Some ==> !is_separator_spec(
            apply_shape_preserving_tone_spec(ch, kind)->0,
        ),
        escape_shape_preserving_tone_spec(ch, kind) is Some ==> !is_separator_spec(
            escape_shape_preserving_tone_spec(ch, kind)->0,
        ),
        apply_telex_w_preserving_tone_spec(ch) is Some ==> !is_separator_spec(
            apply_telex_w_preserving_tone_spec(ch)->0,
        ),
{
    reveal(split_spec);
    reveal(toned_spec);
}

/// No transform of a single vowel changes its case.
pub proof fn lemma_transforms_keep_case(ch: char, kind: VowelShape, tone: Option<char>)
    ensures
        is_upper_spec(split_spec(ch).0) == is_upper_spec(ch),
        apply_tone_spec(ch, tone) is Some ==> is_upper_spec(apply_tone_spec(ch, tone)->0)
            == is_upper_spec(ch),
        apply_shape_spec(ch, kind) is Some ==> is_upper_spec(apply_shape_spec(ch, kind)->0)
            == is_upper_spec(ch),
        apply_shape_preserving_tone_spec(ch, kind) is Some ==> is_upper_spec(
            apply_shape_preserving_tone_spec(ch, kind)->0,
        ) == is_upper_spec(ch),
        escape_shape_preserving_tone_spec(ch, kind) is Some ==> is_upper_spec(
            escape_shape_preserving_tone_spec(ch, kind)->0,
        ) == is_upper_spec(ch),
        apply_telex_w_preserving_tone_spec(ch) is Some ==> is_upper_spec(
            apply_telex_w_preserving_tone_spec(ch)->0,
        ) == is_upper_spec(ch),
{
    reveal(split_spec);
    reveal(toned_spec);
    reveal(lower_char_spec);
}

} // verus!
