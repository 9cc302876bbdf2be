use vitype_core::syllable::{cluster_bounds, is_syllable_ok, is_vowel, plain_vowel};
use vitype_core::tone::{find_toned, is_priority_vowel, tone_target_index};

fn chars(word: &str) -> Vec<char> {
    word.chars().collect()
}

fn bounds(word: &str) -> (usize, usize) {
    let buf = chars(word);
    cluster_bounds(&buf, buf.len())
}

fn legal(word: &str) -> bool {
    let buf = chars(word);
    is_syllable_ok(&buf, buf.len(), false)
}

fn outline(word: &str) -> bool {
    let buf = chars(word);
    is_syllable_ok(&buf, buf.len(), true)
}

fn target(word: &str) -> usize {
    let buf = chars(word);
    let (start, end) = cluster_bounds(&buf, buf.len());
    assert!(start < end);
    tone_target_index(&buf, buf.len(), start, end)
}

#[test]
fn vowels_and_their_plain_letters() {
    for ch in "aăâeêioôơuưyáẬÊỵ".chars() {
        assert!(is_vowel(ch));
    }
    for ch in "bcdđqgw1 ".chars() {
        assert!(!is_vowel(ch));
    }
    assert_eq!(plain_vowel('ẫ'), 'a');
    assert_eq!(plain_vowel('Ằ'), 'a');
    assert_eq!(plain_vowel('ệ'), 'e');
    assert_eq!(plain_vowel('Ờ'), 'o');
    assert_eq!(plain_vowel('ố'), 'o');
    assert_eq!(plain_vowel('ự'), 'u');
    assert_eq!(plain_vowel('Ý'), 'y');
    assert_eq!(plain_vowel('í'), 'i');
    assert_eq!(plain_vowel('T'), 't');
    for ch in "ăâêôơưẮỢ".chars() {
        assert!(is_priority_vowel(ch));
    }
    for ch in "aeiouyáb".chars() {
        assert!(!is_priority_vowel(ch));
    }
}

#[test]
fn where_the_cluster_lies() {
    assert_eq!(bounds(""), (0, 0));
    assert_eq!(bounds("ng"), (2, 2));
    assert_eq!(bounds("a"), (0, 1));
    assert_eq!(bounds("toan"), (1, 3));
    assert_eq!(bounds("nghiêng"), (3, 5));
    assert_eq!(bounds("khuya"), (2, 5));
    assert_eq!(bounds("device"), (1, 2));
}

#[test]
fn qu_and_gi_open_a_word_as_consonants() {
    assert_eq!(bounds("qua"), (2, 3));
    assert_eq!(bounds("quyên"), (2, 4));
    assert_eq!(bounds("Quốc"), (2, 3));
    assert_eq!(bounds("gia"), (2, 3));
    assert_eq!(bounds("giêng"), (2, 3));
    assert_eq!(bounds("gi"), (1, 2));
    assert_eq!(bounds("gì"), (1, 2));
    assert_eq!(bounds("gin"), (1, 2));
    assert_eq!(bounds("qu"), (1, 2));
    assert_eq!(bounds("qun"), (1, 2));
    assert_eq!(bounds("ghi"), (2, 3));
    assert_eq!(bounds("ngia"), (2, 4));
}

#[test]
fn legal_syllables() {
    for word in [
        "", "b", "ng", "a", "ba", "toan", "toán", "người", "nghiêng", "khuya", "khuỷu", "quyết",
        "tuyet", "hoành", "hươu", "mưa", "yêu", "uống", "ách", "tiêu", "muôn", "hăy", "eu", "uoi",
        "ngoai", "xoay", "meo", "gì", "giêng", "Việt", "TRƯỜNG", "zanh", "str",
    ] {
        assert!(legal(word), "{}", word);
        assert!(outline(word), "{}", word);
    }
}

#[test]
fn illegal_syllables() {
    for word in [
        "ae", "aoi", "hoao", "eaoe", "uai", "ad", "dev", "web", "paym", "main", "a1", "az", "anhh",
        "angh", "tieun", "taiz", "ie", "oo",
    ] {
        if word == "ie" {
            assert!(legal(word));
            continue;
        }
        assert!(!legal(word), "{}", word);
    }
}

#[test]
fn a_second_cluster_breaks_the_outline() {
    for word in ["device", "repo", "aba", "thatae", "payme", "oto"] {
        assert!(!outline(word), "{}", word);
        assert!(!legal(word), "{}", word);
    }
    for word in ["ae", "uai", "dev", "a1", "aeiou"] {
        assert!(outline(word), "{}", word);
    }
}

#[test]
fn the_validator_looks_at_a_prefix_only() {
    let buf = chars("tae");
    assert!(is_syllable_ok(&buf, 2, false));
    assert!(!is_syllable_ok(&buf, 3, false));
    assert!(is_syllable_ok(&buf, 0, false));
}

#[test]
fn the_tone_goes_on_a_priority_vowel_first() {
    assert_eq!(target("tiên"), 2);
    assert_eq!(target("muôn"), 2);
    assert_eq!(target("tuôi"), 2);
    assert_eq!(target("hưu"), 1);
    assert_eq!(target("thât"), 2);
    assert_eq!(target("quyên"), 3);
    assert_eq!(target("uyê"), 2);
}

#[test]
fn in_a_horned_pair_the_second_vowel_takes_the_tone() {
    assert_eq!(target("ngươi"), 3);
    assert_eq!(target("hươu"), 2);
    assert_eq!(target("nươc"), 2);
    assert_eq!(target("ươ"), 1);
    assert_eq!(target("ưa"), 0);
    assert_eq!(target("ưo"), 0);
}

#[test]
fn before_a_final_consonant_the_last_vowel_takes_the_tone() {
    assert_eq!(target("tan"), 1);
    assert_eq!(target("toan"), 2);
    assert_eq!(target("tien"), 2);
    assert_eq!(target("zuynh"), 2);
    assert_eq!(target("tuyet"), 3);
    assert_eq!(target("khuyen"), 4);
    assert_eq!(target("aeiot"), 3);
    assert_eq!(target("quyet"), 3);
}

#[test]
fn in_an_open_syllable_the_middle_vowel_takes_the_tone() {
    assert_eq!(target("ta"), 1);
    assert_eq!(target("mua"), 1);
    assert_eq!(target("hoa"), 1);
    assert_eq!(target("khuya"), 3);
    assert_eq!(target("uoi"), 1);
    assert_eq!(target("a"), 0);
    assert_eq!(target("aeio"), 1);
    assert_eq!(target("aeiou"), 2);
}

#[test]
fn the_tone_does_not_depend_on_what_surrounds_the_cluster() {
    for (a, b) in [
        ("toan", "khoang"),
        ("mua", "chùa"),
        ("tuyêt", "khUYẾt"),
        ("tuyet", "khuyEn"),
        ("ngươi", "tƯỚI"),
    ] {
        let (sa, _) = bounds(a);
        let (sb, _) = bounds(b);
        assert_eq!(target(a) - sa, target(b) - sb, "{} {}", a, b);
    }
}

#[test]
fn the_first_toned_vowel_of_a_range() {
    let buf = chars("ngưỜi");
    assert_eq!(find_toned(&buf, buf.len(), 2, 5), 3);
    assert_eq!(find_toned(&buf, buf.len(), 2, 3), 3);
    assert_eq!(find_toned(&buf, buf.len(), 4, 5), 5);
    let plain = chars("nguoi");
    assert_eq!(find_toned(&plain, plain.len(), 2, 5), 5);
}
