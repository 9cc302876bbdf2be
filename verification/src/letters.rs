use vstd::prelude::*;

verus! {

/// The lower-case form of a letter of the Vietnamese alphabet, tone marks
/// and shapes kept; every other character stands for itself.
#[verifier::opaque]
pub open spec fn lower_char_spec(ch: char) -> char {
    match ch {
        'A' => 'a',
        'B' => 'b',
        'C' => 'c',
        'D' => 'd',
        'E' => 'e',
        'F' => 'f',
        'G' => 'g',
        'H' => 'h',
        'I' => 'i',
        'J' => 'j',
        'K' => 'k',
        'L' => 'l',
        'M' => 'm',
        'N' => 'n',
        'O' => 'o',
        'P' => 'p',
        'Q' => 'q',
        'R' => 'r',
        'S' => 's',
        'T' => 't',
        'U' => 'u',
        'V' => 'v',
        'W' => 'w',
        'X' => 'x',
        'Y' => 'y',
        'Z' => 'z',
        'Ă' => 'ă',
        'Â' => 'â',
        'Ê' => 'ê',
        'Ô' => 'ô',
        'Ơ' => 'ơ',
        'Ư' => 'ư',
        'Đ' => 'đ',
        'Á' => 'á',
        'À' => 'à',
        'Ả' => 'ả',
        'Ã' => 'ã',
        'Ạ' => 'ạ',
        'Ắ' => 'ắ',
        'Ằ' => 'ằ',
        'Ẳ' => 'ẳ',
        'Ẵ' => 'ẵ',
        'Ặ' => 'ặ',
        'Ấ' => 'ấ',
        'Ầ' => 'ầ',
        'Ẩ' => 'ẩ',
        'Ẫ' => 'ẫ',
        'Ậ' => 'ậ',
        'É' => 'é',
        'È' => 'è',
        'Ẻ' => 'ẻ',
        'Ẽ' => 'ẽ',
        'Ẹ' => 'ẹ',
        'Ế' => 'ế',
        'Ề' => 'ề',
        'Ể' => 'ể',
        'Ễ' => 'ễ',
        'Ệ' => 'ệ',
        'Í' => 'í',
        'Ì' => 'ì',
        'Ỉ' => 'ỉ',
        'Ĩ' => 'ĩ',
        'Ị' => 'ị',
        'Ó' => 'ó',
        'Ò' => 'ò',
        'Ỏ' => 'ỏ',
        'Õ' => 'õ',
        'Ọ' => 'ọ',
        'Ố' => 'ố',
        'Ồ' => 'ồ',
        'Ổ' => 'ổ',
        'Ỗ' => 'ỗ',
        'Ộ' => 'ộ',
        'Ớ' => 'ớ',
        'Ờ' => 'ờ',
        'Ở' => 'ở',
        'Ỡ' => 'ỡ',
        'Ợ' => 'ợ',
        'Ú' => 'ú',
        'Ù' => 'ù',
        'Ủ' => 'ủ',
        'Ũ' => 'ũ',
        'Ụ' => 'ụ',
        'Ứ' => 'ứ',
        'Ừ' => 'ừ',
        'Ử' => 'ử',
        'Ữ' => 'ữ',
        'Ự' => 'ự',
        'Ý' => 'ý',
        'Ỳ' => 'ỳ',
        'Ỷ' => 'ỷ',
        'Ỹ' => 'ỹ',
        'Ỵ' => 'ỵ',
        _ => ch,
    }
}

/// A letter is upper case when lowering it changes it.
pub open spec fn is_upper_spec(ch: char) -> bool {
    lower_char_spec(ch) != ch
}

/// Space, tab, line feed, form feed or carriage return.
pub open spec fn is_ascii_whitespace_spec(ch: char) -> bool {
    ch == ' ' || ch == '\t' || ch == '\n' || ch == '\x0C' || ch == '\r'
}

/// One of the ten ASCII digits.
pub open spec fn is_ascii_digit_spec(ch: char) -> bool {
    '0' <= ch <= '9'
}

/// One of the thirty-two ASCII punctuation marks.
pub open spec fn is_ascii_punctuation_spec(ch: char) -> bool {
    ||| '!' <= ch <= '/'
    ||| ':' <= ch <= '@'
    ||| '[' <= ch <= '`'
    ||| '{' <= ch <= '~'
}

/// A character that ends a word under one method or the other: ASCII
/// white space, punctuation or a digit.
pub open spec fn is_separator_spec(ch: char) -> bool {
    is_ascii_whitespace_spec(ch) || is_ascii_punctuation_spec(ch) || is_ascii_digit_spec(ch)
}

/// The lower-case form of a letter of the Vietnamese alphabet.
pub fn lower_char(ch: char) -> (r: char)
    ensures
        r == lower_char_spec(ch),
{
    proof {
        reveal(lower_char_spec);
    }
    match ch {
        'A' => 'a',
        'B' => 'b',
        'C' => 'c',
        'D' => 'd',
        'E' => 'e',
        'F' => 'f',
        'G' => 'g',
        'H' => 'h',
        'I' => 'i',
        'J' => 'j',
        'K' => 'k',
        'L' => 'l',
        'M' => 'm',
        'N' => 'n',
        'O' => 'o',
        'P' => 'p',
        'Q' => 'q',
        'R' => 'r',
        'S' => 's',
        'T' => 't',
        'U' => 'u',
        'V' => 'v',
        'W' => 'w',
        'X' => 'x',
        'Y' => 'y',
        'Z' => 'z',
        'Ă' => 'ă',
        'Â' => 'â',
        'Ê' => 'ê',
        'Ô' => 'ô',
        'Ơ' => 'ơ',
        'Ư' => 'ư',
        'Đ' => 'đ',
        'Á' => 'á',
        'À' => 'à',
        'Ả' => 'ả',
        'Ã' => 'ã',
        'Ạ' => 'ạ',
        'Ắ' => 'ắ',
        'Ằ' => 'ằ',
        'Ẳ' => 'ẳ',
        'Ẵ' => 'ẵ',
        'Ặ' => 'ặ',
        'Ấ' => 'ấ',
        'Ầ' => 'ầ',
        'Ẩ' => 'ẩ',
        'Ẫ' => 'ẫ',
        'Ậ' => 'ậ',
        'É' => 'é',
        'È' => 'è',
        'Ẻ' => 'ẻ',
        'Ẽ' => 'ẽ',
        'Ẹ' => 'ẹ',
        'Ế' => 'ế',
        'Ề' => 'ề',
        'Ể' => 'ể',
        'Ễ' => 'ễ',
        'Ệ' => 'ệ',
        'Í' => 'í',
        'Ì' => 'ì',
        'Ỉ' => 'ỉ',
        'Ĩ' => 'ĩ',
        'Ị' => 'ị',
        'Ó' => 'ó',
        'Ò' => 'ò',
        'Ỏ' => 'ỏ',
        'Õ' => 'õ',
        'Ọ' => 'ọ',
        'Ố' => 'ố',
        'Ồ' => 'ồ',
        'Ổ' => 'ổ',
        'Ỗ' => 'ỗ',
        'Ộ' => 'ộ',
        'Ớ' => 'ớ',
        'Ờ' => 'ờ',
        'Ở' => 'ở',
        'Ỡ' => 'ỡ',
        'Ợ' => 'ợ',
        'Ú' => 'ú',
        'Ù' => 'ù',
        'Ủ' => 'ủ',
        'Ũ' => 'ũ',
        'Ụ' => 'ụ',
        'Ứ' => 'ứ',
        'Ừ' => 'ừ',
        'Ử' => 'ử',
        'Ữ' => 'ữ',
        'Ự' => 'ự',
        'Ý' => 'ý',
        'Ỳ' => 'ỳ',
        'Ỷ' => 'ỷ',
        'Ỹ' => 'ỹ',
        'Ỵ' => 'ỵ',
        _ => ch,
    }
}

/// Whether a letter of the Vietnamese alphabet is an upper-case one.
pub fn is_upper(ch: char) -> (r: bool)
    ensures
        r == is_upper_spec(ch),
{
    lower_char(ch) != ch
}

/// Space, tab, line feed, form feed or carriage return.
pub fn is_ascii_whitespace(ch: char) -> (r: bool)
    ensures
        r == is_ascii_whitespace_spec(ch),
{
    ch == ' ' || ch == '\t' || ch == '\n' || ch == '\x0C' || ch == '\r'
}

/// One of the ten ASCII digits.
pub fn is_ascii_digit(ch: char) -> (r: bool)
    ensures
        r == is_ascii_digit_spec(ch),
{
    '0' <= ch && ch <= '9'
}

/// One of the thirty-two ASCII punctuation marks.
pub fn is_ascii_punctuation(ch: char) -> (r: bool)
    ensures
        r == is_ascii_punctuation_spec(ch),
{
    ('!' <= ch && ch <= '/') || (':' <= ch && ch <= '@') || ('[' <= ch && ch <= '`') || ('{' <= ch
        && ch <= '~')
}

/// The stroke changes the case of neither `d`.
pub proof fn lemma_stroke_keeps_case()
    ensures
        !is_upper_spec('d'),
        !is_upper_spec('đ'),
        is_upper_spec('D'),
        is_upper_spec('Đ'),
{
    reveal(lower_char_spec);
}

/// The letters `w` and `ư` agree in case, lower with lower and upper
/// with upper, and only `d` and `D` lower to `d`, only `w` and `W` to `w`.
pub proof fn lemma_w_and_d_case(ch: char)
    ensures
        !is_upper_spec('w'),
        !is_upper_spec('ư'),
        is_upper_spec('W'),
        is_upper_spec('Ư'),
        lower_char_spec(ch) == 'd' <==> ch == 'd' || ch == 'D',
        lower_char_spec(ch) == 'w' <==> ch == 'w' || ch == 'W',
{
    reveal(lower_char_spec);
}

/// Lowering a letter twice changes nothing more.
pub proof fn lemma_lower_idempotent(ch: char)
    ensures
        lower_char_spec(lower_char_spec(ch)) == lower_char_spec(ch),
{
    reveal(lower_char_spec);
}

} // verus!
