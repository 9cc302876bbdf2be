use vstd::prelude::*;
use crate::diacritics::{base_lower, base_lower_spec};
use crate::letters::{lower_char, lower_char_spec};

verus! {

/// One of the twelve vowels, whatever its case or tone.
pub open spec fn is_vowel_spec(ch: char) -> bool {
    let b = base_lower_spec(ch);
    b == 'a' || b == 'ă' || b == 'â' || b == 'e' || b == 'ê' || b == 'i' || b == 'o' || b == 'ô'
        || b == 'ơ' || b == 'u' || b == 'ư' || b == 'y'
}

/// The plain lower-case letter under a vowel's shape and tone; the
/// lower-case base of any other character.
pub open spec fn plain_vowel_spec(ch: char) -> char {
    let b = base_lower_spec(ch);
    if b == 'ă' || b == 'â' {
        'a'
    } else if b == 'ê' {
        'e'
    } else if b == 'ô' || b == 'ơ' {
        'o'
    } else if b == 'ư' {
        'u'
    } else {
        b
    }
}

/// The first position at or after `i` that holds a vowel, or the length.
pub open spec fn first_vowel_from(w: Seq<char>, i: int) -> int
    decreases w.len() - i,
{
    if i < 0 || i >= w.len() {
        w.len() as int
    } else if is_vowel_spec(w[i]) {
        i
    } else {
        first_vowel_from(w, i + 1)
    }
}

/// The first position at or after `i` that holds no vowel, or the length.
pub open spec fn vowel_run_end(w: Seq<char>, i: int) -> int
    decreases w.len() - i,
{
    if i < 0 || i >= w.len() {
        w.len() as int
    } else if !is_vowel_spec(w[i]) {
        i
    } else {
        vowel_run_end(w, i + 1)
    }
}

/// A word opens with the consonant pair `qu` or `gi` when it starts with
/// `q`, `u` or `g`, `i` and another vowel follows.
pub open spec fn has_glide_onset(w: Seq<char>) -> bool {
    &&& w.len() >= 3
    &&& is_vowel_spec(w[2])
    &&& (base_lower_spec(w[0]) == 'q' && base_lower_spec(w[1]) == 'u') || (base_lower_spec(w[0])
        == 'g' && base_lower_spec(w[1]) == 'i')
}

/// Where the vowel cluster of a word starts: at its first vowel, or after
/// the `u` of `qu` and the `i` of `gi`. The length where it has no vowel.
pub open spec fn cluster_start(w: Seq<char>) -> int {
    if has_glide_onset(w) {
        2
    } else {
        first_vowel_from(w, 0)
    }
}

/// Where the vowel cluster ends: the first position after its start that
/// holds no vowel.
pub open spec fn cluster_end(w: Seq<char>) -> int {
    vowel_run_end(w, cluster_start(w))
}

/// The vowel cluster as plain lower-case letters.
pub open spec fn skeleton(w: Seq<char>) -> Seq<char> {
    Seq::new(
        (cluster_end(w) - cluster_start(w)) as nat,
        |k: int| plain_vowel_spec(w[cluster_start(w) + k]),
    )
}

/// What follows the vowel cluster, in lower case.
pub open spec fn coda(w: Seq<char>) -> Seq<char> {
    Seq::new((w.len() - cluster_end(w)) as nat, |k: int| lower_char_spec(w[cluster_end(w) + k]))
}

/// The legal clusters of two vowels, as plain letters.
pub open spec fn vowel_pair_legal(a: char, b: char) -> bool {
    ||| a == 'a' && (b == 'i' || b == 'o' || b == 'u' || b == 'y')
    ||| a == 'e' && (b == 'o' || b == 'u')
    ||| a == 'i' && (b == 'a' || b == 'e' || b == 'u')
    ||| a == 'o' && (b == 'a' || b == 'e' || b == 'i')
    ||| a == 'u' && (b == 'a' || b == 'e' || b == 'i' || b == 'o' || b == 'u' || b == 'y')
    ||| a == 'y' && b == 'e'
}

/// The legal clusters of three vowels, as plain letters.
pub open spec fn vowel_triple_legal(a: char, b: char, c: char) -> bool {
    ||| a == 'i' && b == 'e' && c == 'u'
    ||| a == 'o' && b == 'a' && (c == 'i' || c == 'y')
    ||| a == 'o' && b == 'e' && c == 'o'
    ||| a == 'u' && b == 'a' && c == 'y'
    ||| a == 'u' && b == 'o' && (c == 'i' || c == 'u')
    ||| a == 'u' && b == 'y' && (c == 'a' || c == 'e' || c == 'u')
    ||| a == 'y' && b == 'e' && c == 'u'
}

/// The vowel clusters of Vietnamese, as plain letters. No cluster and a
/// single vowel are legal too: a word may still be growing.
pub open spec fn cluster_legal(s: Seq<char>) -> bool {
    if s.len() <= 1 {
        true
    } else if s.len() == 2 {
        vowel_pair_legal(s[0], s[1])
    } else if s.len() == 3 {
        vowel_triple_legal(s[0], s[1], s[2])
    } else {
        false
    }
}

/// The clusters that a final consonant may follow.
pub open spec fn cluster_takes_coda(s: Seq<char>) -> bool {
    if s.len() == 1 {
        true
    } else if s.len() == 2 {
        ||| s[0] == 'i' && s[1] == 'e'
        ||| s[0] == 'o' && (s[1] == 'a' || s[1] == 'e')
        ||| s[0] == 'u' && (s[1] == 'a' || s[1] == 'e' || s[1] == 'o' || s[1] == 'y')
        ||| s[0] == 'y' && s[1] == 'e'
    } else if s.len() == 3 {
        s[0] == 'u' && s[1] == 'y' && s[2] == 'e'
    } else {
        false
    }
}

/// The final consonants `c ch m n ng nh p t`, and nothing at all.
pub open spec fn coda_legal(c: Seq<char>) -> bool {
    if c.len() == 0 {
        true
    } else if c.len() == 1 {
        c[0] == 'c' || c[0] == 'm' || c[0] == 'n' || c[0] == 'p' || c[0] == 't'
    } else if c.len() == 2 {
        (c[0] == 'c' && c[1] == 'h') || (c[0] == 'n' && (c[1] == 'g' || c[1] == 'h'))
    } else {
        false
    }
}

/// A word has the outline of a syllable when no vowel follows the end of
/// its vowel cluster.
pub open spec fn outline_ok(w: Seq<char>) -> bool {
    first_vowel_from(w, cluster_end(w)) == w.len()
}

/// Whether a word still forms a syllable: consonants, one legal vowel
/// cluster, and a final consonant that the cluster may take. With `relaxed`
/// only the outline counts.
pub open spec fn syllable_ok(w: Seq<char>, relaxed: bool) -> bool {
    &&& outline_ok(w)
    &&& relaxed || {
        &&& cluster_legal(skeleton(w))
        &&& coda_legal(coda(w))
        &&& coda(w).len() > 0 ==> cluster_takes_coda(skeleton(w))
    }
}

/// What `first_vowel_from` finds is the first vowel from `i` on.
pub proof fn lemma_first_vowel_from(w: Seq<char>, i: int)
    requires
        0 <= i <= w.len(),
    ensures
        i <= first_vowel_from(w, i) <= w.len(),
        first_vowel_from(w, i) < w.len() ==> is_vowel_spec(w[first_vowel_from(w, i)]),
        forall|j: int| i <= j < first_vowel_from(w, i) ==> !is_vowel_spec(#[trigger] w[j]),
    decreases w.len() - i,
{
    if i < w.len() && !is_vowel_spec(w[i]) {
        lemma_first_vowel_from(w, i + 1);
    }
}

/// What `vowel_run_end` finds ends the run of vowels from `i` on.
pub proof fn lemma_vowel_run_end(w: Seq<char>, i: int)
    requires
        0 <= i <= w.len(),
    ensures
        i <= vowel_run_end(w, i) <= w.len(),
        vowel_run_end(w, i) < w.len() ==> !is_vowel_spec(w[vowel_run_end(w, i)]),
        forall|j: int| i <= j < vowel_run_end(w, i) ==> is_vowel_spec(#[trigger] w[j]),
    decreases w.len() - i,
{
    if i < w.len() && is_vowel_spec(w[i]) {
        lemma_vowel_run_end(w, i + 1);
    }
}

/// The cluster lies inside the word, holds vowels only, and ends at a
/// consonant or at the end of the word.
pub proof fn lemma_cluster_bounds(w: Seq<char>)
    ensures
        0 <= cluster_start(w) <= cluster_end(w) <= w.len(),
        forall|j: int| cluster_start(w) <= j < cluster_end(w) ==> is_vowel_spec(#[trigger] w[j]),
        cluster_end(w) < w.len() ==> !is_vowel_spec(w[cluster_end(w)]),
{
    lemma_first_vowel_from(w, 0);
    lemma_vowel_run_end(w, cluster_start(w));
}

/// Two words are of the same letters when they agree in every letter
/// without its tone and case, and in every character that is no vowel.
pub open spec fn same_letters(w1: Seq<char>, w2: Seq<char>) -> bool {
    &&& w1.len() == w2.len()
    &&& forall|i: int|
        0 <= i < w1.len() ==> base_lower_spec(#[trigger] w1[i]) == base_lower_spec(w2[i])
    &&& forall|i: int| 0 <= i < w1.len() && !is_vowel_spec(#[trigger] w1[i]) ==> w1[i] == w2[i]
}

proof fn lemma_same_letters_same_runs(w1: Seq<char>, w2: Seq<char>, i: int)
    requires
        same_letters(w1, w2),
        0 <= i <= w1.len(),
    ensures
        first_vowel_from(w1, i) == first_vowel_from(w2, i),
        vowel_run_end(w1, i) == vowel_run_end(w2, i),
    decreases w1.len() - i,
{
    if i < w1.len() {
        assert(base_lower_spec(w1[i]) == base_lower_spec(w2[i]));
        lemma_same_letters_same_runs(w1, w2, i + 1);
    }
}

/// Whether a word forms a syllable depends on its letters alone, not on
/// their tones or case: two words of the same letters have the same vowel
/// cluster, and both form a syllable or neither does.
pub proof fn lemma_same_letters_same_syllable(w1: Seq<char>, w2: Seq<char>, relaxed: bool)
    requires
        same_letters(w1, w2),
    ensures
        cluster_start(w1) == cluster_start(w2),
        cluster_end(w1) == cluster_end(w2),
        syllable_ok(w1, relaxed) == syllable_ok(w2, relaxed),
{
    lemma_same_letters_same_runs(w1, w2, 0);
    if w1.len() >= 3 {
        assert(base_lower_spec(w1[0]) == base_lower_spec(w2[0]));
        assert(base_lower_spec(w1[1]) == base_lower_spec(w2[1]));
        assert(base_lower_spec(w1[2]) == base_lower_spec(w2[2]));
    }
    lemma_cluster_bounds(w1);
    lemma_cluster_bounds(w2);
    let cs = cluster_start(w1);
    lemma_same_letters_same_runs(w1, w2, cs);
    let ce = cluster_end(w1);
    lemma_same_letters_same_runs(w1, w2, ce);
    assert forall|k: int| 0 <= k < ce - cs implies skeleton(w1)[k] == skeleton(w2)[k] by {
        assert(base_lower_spec(w1[cs + k]) == base_lower_spec(w2[cs + k]));
    }
    assert(skeleton(w1) =~= skeleton(w2));
    if outline_ok(w1) {
        lemma_first_vowel_from(w1, ce);
        assert forall|k: int| 0 <= k < w1.len() - ce implies coda(w1)[k] == coda(w2)[k] by {
            assert(!is_vowel_spec(w1[ce + k]));
        }
        assert(coda(w1) =~= coda(w2));
    }
}

/// The empty word forms a syllable.
pub proof fn lemma_empty_word_ok(w: Seq<char>, relaxed: bool)
    requires
        w.len() == 0,
    ensures
        syllable_ok(w, relaxed),
{
    lemma_cluster_bounds(w);
    assert(skeleton(w).len() == 0);
    assert(coda(w).len() == 0);
}

/// One of the twelve vowels, whatever its case or tone.
pub fn is_vowel(ch: char) -> (r: bool)
    ensures
        r == is_vowel_spec(ch),
{
    let b = base_lower(ch);
    b == 'a' || b == 'ă' || b == 'â' || b == 'e' || b == 'ê' || b == 'i' || b == 'o' || b == 'ô'
        || b == 'ơ' || b == 'u' || b == 'ư' || b == 'y'
}

/// The plain lower-case letter under a vowel's shape and tone.
pub fn plain_vowel(ch: char) -> (r: char)
    ensures
        r == plain_vowel_spec(ch),
{
    let b = base_lower(ch);
    if b == 'ă' || b == 'â' {
        'a'
    } else if b == 'ê' {
        'e'
    } else if b == 'ô' || b == 'ơ' {
        'o'
    } else if b == 'ư' {
        'u'
    } else {
        b
    }
}

/// The first position in `buf[from..len]` that holds a vowel, or `len`.
pub fn find_first_vowel(buf: &Vec<char>, len: usize, from: usize) -> (r: usize)
    requires
        from <= len <= buf.len(),
    ensures
        r == first_vowel_from(buf@.take(len as int), from as int),
        from <= r <= len,
{
    let ghost w = buf@.take(len as int);
    let mut i: usize = from;
    while i < len
        invariant
            from <= i <= len <= buf.len(),
            w == buf@.take(len as int),
            first_vowel_from(w, from as int) == first_vowel_from(w, i as int),
        decreases len - i,
    {
        if is_vowel(buf[i]) {
            return i;
        }
        i += 1;
    }
    i
}

/// The first position in `buf[from..len]` that holds no vowel, or `len`.
pub fn find_vowel_run_end(buf: &Vec<char>, len: usize, from: usize) -> (r: usize)
    requires
        from <= len <= buf.len(),
    ensures
        r == vowel_run_end(buf@.take(len as int), from as int),
        from <= r <= len,
{
    let ghost w = buf@.take(len as int);
    let mut i: usize = from;
    while i < len
        invariant
            from <= i <= len <= buf.len(),
            w == buf@.take(len as int),
            vowel_run_end(w, from as int) == vowel_run_end(w, i as int),
        decreases len - i,
    {
        if !is_vowel(buf[i]) {
            return i;
        }
        i += 1;
    }
    i
}

/// Start and end of the vowel cluster of the word `buf[..len]`.
pub fn cluster_bounds(buf: &Vec<char>, len: usize) -> (r: (usize, usize))
    requires
        len <= buf.len(),
    ensures
        r.0 == cluster_start(buf@.take(len as int)),
        r.1 == cluster_end(buf@.take(len as int)),
        r.0 <= r.1 <= len,
{
    let mut glide = false;
    if len >= 3 && is_vowel(buf[2]) {
        let c0 = base_lower(buf[0]);
        let c1 = base_lower(buf[1]);
        glide = (c0 == 'q' && c1 == 'u') || (c0 == 'g' && c1 == 'i');
    }
    let start = if glide {
        2
    } else {
        find_first_vowel(buf, len, 0)
    };
    let end = find_vowel_run_end(buf, len, start);
    (start, end)
}

/// Whether the vowel cluster `buf[start..end]` of the word `buf[..len]` is
/// a legal one.
pub fn cluster_is_legal(buf: &Vec<char>, len: usize, start: usize, end: usize) -> (r: bool)
    requires
        len <= buf.len(),
        start == cluster_start(buf@.take(len as int)),
        end == cluster_end(buf@.take(len as int)),
        start <= end <= len,
    ensures
        r == cluster_legal(skeleton(buf@.take(len as int))),
{
    let ghost s = skeleton(buf@.take(len as int));
    let n = end - start;
    assert(s.len() == n);
    if n <= 1 {
        true
    } else if n == 2 {
        let a = plain_vowel(buf[start]);
        let b = plain_vowel(buf[start + 1]);
        assert(a == s[0] && b == s[1]);
        (a == 'a' && (b == 'i' || b == 'o' || b == 'u' || b == 'y')) || (a == 'e' && (b == 'o' || b
            == 'u')) || (a == 'i' && (b == 'a' || b == 'e' || b == 'u')) || (a == 'o' && (b == 'a'
            || b == 'e' || b == 'i')) || (a == 'u' && (b == 'a' || b == 'e' || b == 'i' || b == 'o'
            || b == 'u' || b == 'y')) || (a == 'y' && b == 'e')
    } else if n == 3 {
        let a = plain_vowel(buf[start]);
        let b = plain_vowel(buf[start + 1]);
        let c = plain_vowel(buf[start + 2]);
        assert(a == s[0] && b == s[1] && c == s[2]);
        (a == 'i' && b == 'e' && c == 'u') || (a == 'o' && b == 'a' && (c == 'i' || c == 'y')) || (a
            == 'o' && b == 'e' && c == 'o') || (a == 'u' && b == 'a' && c == 'y') || (a == 'u' && b
            == 'o' && (c == 'i' || c == 'u')) || (a == 'u' && b == 'y' && (c == 'a' || c == 'e' || c
            == 'u')) || (a == 'y' && b == 'e' && c == 'u')
    } else {
        false
    }
}

/// Whether a final consonant may follow the vowel cluster `buf[start..end]`.
pub fn cluster_may_take_coda(buf: &Vec<char>, len: usize, start: usize, end: usize) -> (r: bool)
    requires
        len <= buf.len(),
        start == cluster_start(buf@.take(len as int)),
        end == cluster_end(buf@.take(len as int)),
        start <= end <= len,
    ensures
        r == cluster_takes_coda(skeleton(buf@.take(len as int))),
{
    let ghost s = skeleton(buf@.take(len as int));
    let n = end - start;
    assert(s.len() == n);
    if n == 1 {
        true
    } else if n == 2 {
        let a = plain_vowel(buf[start]);
        let b = plain_vowel(buf[start + 1]);
        assert(a == s[0] && b == s[1]);
        (a == 'i' && b == 'e') || (a == 'o' && (b == 'a' || b == 'e')) || (a == 'u' && (b == 'a'
            || b == 'e' || b == 'o' || b == 'y')) || (a == 'y' && b == 'e')
    } else if n == 3 {
        let a = plain_vowel(buf[start]);
        let b = plain_vowel(buf[start + 1]);
        let c = plain_vowel(buf[start + 2]);
        assert(a == s[0] && b == s[1] && c == s[2]);
        a == 'u' && b == 'y' && c == 'e'
    } else {
        false
    }
}

/// Whether what follows the vowel cluster, `buf[end..len]`, is a final
/// consonant of Vietnamese or nothing.
pub fn coda_is_legal(buf: &Vec<char>, len: usize, end: usize) -> (r: bool)
    requires
        len <= buf.len(),
        end == cluster_end(buf@.take(len as int)),
        end <= len,
    ensures
        r == coda_legal(coda(buf@.take(len as int))),
{
    let ghost c = coda(buf@.take(len as int));
    let m = len - end;
    assert(c.len() == m);
    if m == 0 {
        true
    } else if m == 1 {
        let c0 = lower_char(buf[end]);
        assert(c0 == c[0]);
        c0 == 'c' || c0 == 'm' || c0 == 'n' || c0 == 'p' || c0 == 't'
    } else if m == 2 {
        let c0 = lower_char(buf[end]);
        let c1 = lower_char(buf[end + 1]);
        assert(c0 == c[0] && c1 == c[1]);
        (c0 == 'c' && c1 == 'h') || (c0 == 'n' && (c1 == 'g' || c1 == 'h'))
    } else {
        false
    }
}

/// Whether the word `buf[..len]` still forms a syllable.
pub fn is_syllable_ok(buf: &Vec<char>, len: usize, relaxed: bool) -> (r: bool)
    requires
        len <= buf.len(),
    ensures
        r == syllable_ok(buf@.take(len as int), relaxed),
{
    let ghost w = buf@.take(len as int);
    let (start, end) = cluster_bounds(buf, len);
    if find_first_vowel(buf, len, end) != len {
        return false;
    }
    if relaxed {
        return true;
    }
    if !cluster_is_legal(buf, len, start, end) {
        return false;
    }
    if !coda_is_legal(buf, len, end) {
        return false;
    }
    assert(coda(w).len() == len - end);
    if end < len {
        cluster_may_take_coda(buf, len, start, end)
    } else {
        true
    }
}

} // verus!
