use vitype_core::letters::{
    is_ascii_digit, is_ascii_punctuation, is_ascii_whitespace, is_upper, lower_char,
};
use vitype_core::telex::{is_telex_word_boundary, is_tone_key};
use vitype_core::vni::{
    is_vni_tone_key, is_vni_vowel_transform_key, is_vni_word_boundary, vni_tone_key_to_internal,
};

const VIETNAMESE_LOWER: &str = "aáàảãạăắằẳẵặâấầẩẫậeéèẻẽẹêếềểễệiíìỉĩịoóòỏõọôốồổỗộơớờởỡợuúùủũụưứừửữựyýỳỷỹỵđ";

#[test]
fn lower_char_agrees_with_the_alphabet() {
    for lower in VIETNAMESE_LOWER.chars() {
        let upper = lower.to_uppercase().next().unwrap();
        assert_ne!(upper, lower);
        assert_eq!(lower_char(upper), lower);
        assert_eq!(lower_char(lower), lower);
        assert!(is_upper(upper));
        assert!(!is_upper(lower));
    }
    for code in 0u8..128 {
        let ch = code as char;
        assert_eq!(lower_char(ch), ch.to_ascii_lowercase());
        assert_eq!(is_upper(ch), ch.is_ascii_uppercase());
    }
}

#[test]
fn lower_char_leaves_other_characters_alone() {
    assert_eq!(lower_char('Ñ'), 'Ñ');
    assert_eq!(lower_char('Ü'), 'Ü');
    assert_eq!(lower_char('ß'), 'ß');
    assert_eq!(lower_char('1'), '1');
    assert_eq!(lower_char(' '), ' ');
    assert!(!is_upper('Ñ'));
}

#[test]
fn ascii_classes_agree_with_the_standard_ones() {
    for code in 0u32..0x250 {
        let ch = char::from_u32(code).unwrap();
        assert_eq!(is_ascii_whitespace(ch), ch.is_ascii_whitespace());
        assert_eq!(is_ascii_punctuation(ch), ch.is_ascii_punctuation());
        assert_eq!(is_ascii_digit(ch), ch.is_ascii_digit());
    }
}

#[test]
fn telex_word_ends_at_digits_and_vni_does_not() {
    for ch in "0123456789".chars() {
        assert!(is_telex_word_boundary(ch));
        assert!(!is_vni_word_boundary(ch));
    }
    for ch in " \t\n\r.,;:!?-()[]\"'".chars() {
        assert!(is_telex_word_boundary(ch));
        assert!(is_vni_word_boundary(ch));
    }
    for ch in "azAZđâư".chars() {
        assert!(!is_telex_word_boundary(ch));
        assert!(!is_vni_word_boundary(ch));
    }
}

#[test]
fn tone_keys_of_both_methods() {
    for ch in "sfrxjzSFRXJZ".chars() {
        assert!(is_tone_key(ch));
    }
    for ch in "aeowdbt1 ".chars() {
        assert!(!is_tone_key(ch));
    }
    for ch in "012345".chars() {
        assert!(is_vni_tone_key(ch));
        assert!(!is_vni_vowel_transform_key(ch));
    }
    for ch in "678".chars() {
        assert!(is_vni_vowel_transform_key(ch));
        assert!(!is_vni_tone_key(ch));
    }
    assert!(!is_vni_tone_key('9'));
    assert!(!is_vni_vowel_transform_key('9'));
    assert!(!is_vni_tone_key('a'));
    assert_eq!(vni_tone_key_to_internal('1'), Some('s'));
    assert_eq!(vni_tone_key_to_internal('2'), Some('f'));
    assert_eq!(vni_tone_key_to_internal('3'), Some('r'));
    assert_eq!(vni_tone_key_to_internal('4'), Some('x'));
    assert_eq!(vni_tone_key_to_internal('5'), Some('j'));
    assert_eq!(vni_tone_key_to_internal('0'), Some('z'));
    assert_eq!(vni_tone_key_to_internal('6'), None);
    assert_eq!(vni_tone_key_to_internal('a'), None);
}
