use vitype_core::diacritics::{
    apply_shape, apply_shape_preserving_tone, apply_telex_w_preserving_tone, apply_tone,
    base_lower, escape_shape_preserving_tone, split_vowel_and_tone, VowelShape,
};
use vitype_core::telex::telex_escape_char_for_key;
use vitype_core::vni::{vni_apply_shape_for_key, vni_escape_char_for_key};

const ROWS: [(char, &str); 12] = [
    ('a', "áàảãạ"),
    ('ă', "ắằẳẵặ"),
    ('â', "ấầẩẫậ"),
    ('e', "éèẻẽẹ"),
    ('ê', "ếềểễệ"),
    ('i', "íìỉĩị"),
    ('o', "óòỏõọ"),
    ('ô', "ốồổỗộ"),
    ('ơ', "ớờởỡợ"),
    ('u', "úùủũụ"),
    ('ư', "ứừửữự"),
    ('y', "ýỳỷỹỵ"),
];

const TONES: [char; 5] = ['s', 'f', 'r', 'x', 'j'];

fn upper(ch: char) -> char {
    ch.to_uppercase().next().unwrap()
}

#[test]
fn every_toned_vowel_splits_and_composes() {
    for (base, row) in ROWS {
        for (tone, toned) in TONES.iter().zip(row.chars()) {
            assert_eq!(split_vowel_and_tone(toned), (base, Some(*tone)));
            assert_eq!(apply_tone(base, Some(*tone)), Some(toned));
            assert_eq!(split_vowel_and_tone(upper(toned)), (upper(base), Some(*tone)));
            assert_eq!(apply_tone(upper(base), Some(*tone)), Some(upper(toned)));
            assert_eq!(base_lower(upper(toned)), base);
        }
        assert_eq!(split_vowel_and_tone(base), (base, None));
        assert_eq!(apply_tone(base, None), Some(base));
    }
}

#[test]
fn splitting_leaves_other_characters_alone() {
    for ch in "bđĐz1 ñü€".chars() {
        assert_eq!(split_vowel_and_tone(ch), (ch, None));
    }
}

#[test]
fn unknown_tone_combinations_fail() {
    assert_eq!(apply_tone('b', Some('s')), None);
    assert_eq!(apply_tone('a', Some('z')), None);
    assert_eq!(apply_tone('a', Some('S')), None);
    assert_eq!(apply_tone('á', Some('f')), None);
    assert_eq!(apply_tone('đ', Some('j')), None);
    assert_eq!(apply_tone('b', None), Some('b'));
}

#[test]
fn shapes_of_plain_vowels() {
    assert_eq!(apply_shape('a', VowelShape::Circumflex), Some('â'));
    assert_eq!(apply_shape('ă', VowelShape::Circumflex), Some('â'));
    assert_eq!(apply_shape('e', VowelShape::Circumflex), Some('ê'));
    assert_eq!(apply_shape('o', VowelShape::Circumflex), Some('ô'));
    assert_eq!(apply_shape('ơ', VowelShape::Circumflex), Some('ô'));
    assert_eq!(apply_shape('o', VowelShape::Horn), Some('ơ'));
    assert_eq!(apply_shape('ô', VowelShape::Horn), Some('ơ'));
    assert_eq!(apply_shape('u', VowelShape::Horn), Some('ư'));
    assert_eq!(apply_shape('a', VowelShape::Breve), Some('ă'));
    assert_eq!(apply_shape('â', VowelShape::Breve), Some('ă'));
    assert_eq!(apply_shape('A', VowelShape::Circumflex), Some('Â'));
    assert_eq!(apply_shape('Ơ', VowelShape::Circumflex), Some('Ô'));
    assert_eq!(apply_shape('U', VowelShape::Horn), Some('Ư'));
    assert_eq!(apply_shape('Â', VowelShape::Breve), Some('Ă'));
}

#[test]
fn shapes_that_do_not_exist() {
    assert_eq!(apply_shape('â', VowelShape::Circumflex), None);
    assert_eq!(apply_shape('i', VowelShape::Circumflex), None);
    assert_eq!(apply_shape('u', VowelShape::Circumflex), None);
    assert_eq!(apply_shape('a', VowelShape::Horn), None);
    assert_eq!(apply_shape('ư', VowelShape::Horn), None);
    assert_eq!(apply_shape('ơ', VowelShape::Horn), None);
    assert_eq!(apply_shape('e', VowelShape::Breve), None);
    assert_eq!(apply_shape('ă', VowelShape::Breve), None);
    assert_eq!(apply_shape('b', VowelShape::Horn), None);
    assert_eq!(apply_shape('á', VowelShape::Circumflex), None);
}

#[test]
fn shapes_keep_the_tone() {
    assert_eq!(apply_shape_preserving_tone('á', VowelShape::Circumflex), Some('ấ'));
    assert_eq!(apply_shape_preserving_tone('ặ', VowelShape::Circumflex), Some('ậ'));
    assert_eq!(apply_shape_preserving_tone('Ò', VowelShape::Horn), Some('Ờ'));
    assert_eq!(apply_shape_preserving_tone('ũ', VowelShape::Horn), Some('ữ'));
    assert_eq!(apply_shape_preserving_tone('ẩ', VowelShape::Breve), Some('ẳ'));
    assert_eq!(apply_shape_preserving_tone('e', VowelShape::Circumflex), Some('ê'));
    assert_eq!(apply_shape_preserving_tone('í', VowelShape::Circumflex), None);
    assert_eq!(apply_shape_preserving_tone('t', VowelShape::Horn), None);
}

#[test]
fn escapes_take_the_shape_off_and_keep_the_tone() {
    assert_eq!(escape_shape_preserving_tone('â', VowelShape::Circumflex), Some('a'));
    assert_eq!(escape_shape_preserving_tone('ệ', VowelShape::Circumflex), Some('ẹ'));
    assert_eq!(escape_shape_preserving_tone('Ố', VowelShape::Circumflex), Some('Ó'));
    assert_eq!(escape_shape_preserving_tone('ơ', VowelShape::Horn), Some('o'));
    assert_eq!(escape_shape_preserving_tone('Ữ', VowelShape::Horn), Some('Ũ'));
    assert_eq!(escape_shape_preserving_tone('ằ', VowelShape::Breve), Some('à'));
    assert_eq!(escape_shape_preserving_tone('a', VowelShape::Circumflex), None);
    assert_eq!(escape_shape_preserving_tone('â', VowelShape::Breve), None);
    assert_eq!(escape_shape_preserving_tone('ă', VowelShape::Horn), None);
    assert_eq!(escape_shape_preserving_tone('ô', VowelShape::Horn), None);
    assert_eq!(escape_shape_preserving_tone('đ', VowelShape::Horn), None);
}

#[test]
fn an_escape_undoes_a_shape_on_every_plain_vowel() {
    let kinds = [VowelShape::Circumflex, VowelShape::Horn, VowelShape::Breve];
    for (base, row) in ROWS {
        if !"aeiouy".contains(base) {
            continue;
        }
        let mut forms: Vec<char> = row.chars().collect();
        forms.push(base);
        for form in forms {
            for ch in [form, upper(form)] {
                for kind in kinds {
                    if let Some(shaped) = apply_shape_preserving_tone(ch, kind) {
                        assert_ne!(shaped, ch);
                        assert_eq!(shaped.is_uppercase(), ch.is_uppercase());
                        assert_eq!(escape_shape_preserving_tone(shaped, kind), Some(ch));
                    }
                }
            }
        }
    }
}

#[test]
fn telex_w_on_single_vowels() {
    assert_eq!(apply_telex_w_preserving_tone('a'), Some('ă'));
    assert_eq!(apply_telex_w_preserving_tone('á'), Some('ắ'));
    assert_eq!(apply_telex_w_preserving_tone('o'), Some('ơ'));
    assert_eq!(apply_telex_w_preserving_tone('ô'), Some('ơ'));
    assert_eq!(apply_telex_w_preserving_tone('ồ'), Some('ờ'));
    assert_eq!(apply_telex_w_preserving_tone('u'), Some('ư'));
    assert_eq!(apply_telex_w_preserving_tone('Ụ'), Some('Ự'));
    assert_eq!(apply_telex_w_preserving_tone('ă'), Some('ă'));
    assert_eq!(apply_telex_w_preserving_tone('ư'), Some('ư'));
    assert_eq!(apply_telex_w_preserving_tone('Ư'), Some('Ư'));
    assert_eq!(apply_telex_w_preserving_tone('ắ'), None);
    assert_eq!(apply_telex_w_preserving_tone('ừ'), None);
    assert_eq!(apply_telex_w_preserving_tone('â'), None);
    assert_eq!(apply_telex_w_preserving_tone('ơ'), None);
    assert_eq!(apply_telex_w_preserving_tone('e'), None);
    assert_eq!(apply_telex_w_preserving_tone('i'), None);
    assert_eq!(apply_telex_w_preserving_tone('k'), None);
}

#[test]
fn vni_keys_on_single_vowels() {
    assert_eq!(vni_apply_shape_for_key('a', '6'), Some('â'));
    assert_eq!(vni_apply_shape_for_key('a', '7'), None);
    assert_eq!(vni_apply_shape_for_key('a', '8'), Some('ă'));
    assert_eq!(vni_apply_shape_for_key('ó', '7'), Some('ớ'));
    assert_eq!(vni_apply_shape_for_key('u', '7'), Some('ư'));
    assert_eq!(vni_apply_shape_for_key('a', '9'), None);
    assert_eq!(vni_apply_shape_for_key('a', 'a'), None);
    assert_eq!(vni_escape_char_for_key('ấ', '6'), Some('á'));
    assert_eq!(vni_escape_char_for_key('ư', '7'), Some('u'));
    assert_eq!(vni_escape_char_for_key('ă', '8'), Some('a'));
    assert_eq!(vni_escape_char_for_key('ă', '6'), None);
    assert_eq!(vni_escape_char_for_key('â', '5'), None);
}

#[test]
fn telex_keys_take_their_own_shape_off() {
    assert_eq!(telex_escape_char_for_key('ă', 'w'), Some('a'));
    assert_eq!(telex_escape_char_for_key('ớ', 'w'), Some('ó'));
    assert_eq!(telex_escape_char_for_key('Ư', 'w'), Some('U'));
    assert_eq!(telex_escape_char_for_key('â', 'w'), None);
    assert_eq!(telex_escape_char_for_key('â', 'a'), Some('a'));
    assert_eq!(telex_escape_char_for_key('ề', 'e'), Some('è'));
    assert_eq!(telex_escape_char_for_key('Ô', 'o'), Some('O'));
    assert_eq!(telex_escape_char_for_key('ê', 'a'), None);
    assert_eq!(telex_escape_char_for_key('ô', 'e'), None);
    assert_eq!(telex_escape_char_for_key('â', 'o'), None);
    assert_eq!(telex_escape_char_for_key('â', 's'), None);
    assert_eq!(telex_escape_char_for_key('a', 'a'), None);
}
