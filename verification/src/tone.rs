use vstd::prelude::*;
use crate::diacritics::{base_lower, base_lower_spec, split_spec, split_vowel_and_tone};
use crate::syllable::{cluster_end, cluster_start, lemma_cluster_bounds};

verus! {

/// The vowels that take the tone wherever they stand in a cluster.
pub open spec fn is_priority_vowel_spec(ch: char) -> bool {
    let b = base_lower_spec(ch);
    b == 'ă' || b == 'â' || b == 'ê' || b == 'ô' || b == 'ơ' || b == 'ư'
}

/// The first position at or after `i` that holds a priority vowel, or the
/// length.
pub open spec fn first_priority_from(c: Seq<char>, i: int) -> int
    decreases c.len() - i,
{
    if i < 0 || i >= c.len() {
        c.len() as int
    } else if is_priority_vowel_spec(c[i]) {
        i
    } else {
        first_priority_from(c, i + 1)
    }
}

/// Which vowel of a cluster carries the tone, as an offset into the
/// cluster. The first priority vowel wins, and in `ươ` the `ơ`. Without
/// one, the last vowel carries it where a final consonant follows the
/// cluster; where none does, the only vowel of one, the first of two and
/// the middle one of three, and of more the middle one or the earlier of
/// the two in the middle.
pub open spec fn tone_offset(cluster: Seq<char>, has_final: bool) -> int {
    let p = first_priority_from(cluster, 0);
    if p < cluster.len() {
        if base_lower_spec(cluster[p]) == 'ư' && p + 1 < cluster.len() && base_lower_spec(
            cluster[p + 1],
        ) == 'ơ' {
            p + 1
        } else {
            p
        }
    } else if has_final {
        cluster.len() - 1
    } else {
        (cluster.len() - 1) / 2
    }
}

/// The vowel cluster of a word.
pub open spec fn cluster_of(w: Seq<char>) -> Seq<char> {
    w.subrange(cluster_start(w), cluster_end(w))
}

/// The position in a word of the vowel that carries the tone.
pub open spec fn tone_target(w: Seq<char>) -> int {
    cluster_start(w) + tone_offset(cluster_of(w), cluster_end(w) < w.len())
}

/// The first position in `[i, end)` that holds a toned vowel, or `end`.
pub open spec fn first_toned_from(w: Seq<char>, i: int, end: int) -> int
    decreases end - i,
{
    if i < 0 || i >= end || i >= w.len() {
        end
    } else if split_spec(w[i]).1 is Some {
        i
    } else {
        first_toned_from(w, i + 1, end)
    }
}

/// The position of the toned vowel of a word's cluster, or the cluster's
/// end where no vowel carries a tone.
pub open spec fn toned_index(w: Seq<char>) -> int {
    first_toned_from(w, cluster_start(w), cluster_end(w))
}

/// The last position before `before` whose character carries `tone`.
pub open spec fn last_with_tone(w: Seq<char>, before: int, tone: char) -> Option<int>
    decreases before,
{
    if before <= 0 || before > w.len() {
        None
    } else if split_spec(w[before - 1]).1 == Some(tone) {
        Some(before - 1)
    } else {
        last_with_tone(w, before - 1, tone)
    }
}

/// What `first_priority_from` finds is the first priority vowel from `i`
/// on.
pub proof fn lemma_first_priority_from(c: Seq<char>, i: int)
    requires
        0 <= i <= c.len(),
    ensures
        i <= first_priority_from(c, i) <= c.len(),
        first_priority_from(c, i) < c.len() ==> is_priority_vowel_spec(
            c[first_priority_from(c, i)],
        ),
        forall|j: int| i <= j < first_priority_from(c, i) ==> !is_priority_vowel_spec(#[trigger] c[j]),
    decreases c.len() - i,
{
    if i < c.len() && !is_priority_vowel_spec(c[i]) {
        lemma_first_priority_from(c, i + 1);
    }
}

/// What `first_toned_from` finds is the first toned vowel from `i` on.
pub proof fn lemma_first_toned_from(w: Seq<char>, i: int, end: int)
    requires
        0 <= i <= end <= w.len(),
    ensures
        i <= first_toned_from(w, i, end) <= end,
        first_toned_from(w, i, end) < end ==> split_spec(w[first_toned_from(w, i, end)]).1 is Some,
        forall|j: int| i <= j < first_toned_from(w, i, end) ==> split_spec(#[trigger] w[j]).1 is None,
    decreases end - i,
{
    if i < end && split_spec(w[i]).1 is None {
        lemma_first_toned_from(w, i + 1, end);
    }
}

/// What `last_with_tone` finds is the last character before `before`
/// that carries the tone.
pub proof fn lemma_last_with_tone(w: Seq<char>, before: int, tone: char)
    requires
        0 <= before <= w.len(),
    ensures
        match last_with_tone(w, before, tone) {
            Some(i) => 0 <= i < before && split_spec(w[i]).1 == Some(tone) && forall|j: int|
                i < j < before ==> split_spec(#[trigger] w[j]).1 != Some(tone),
            None => forall|j: int| 0 <= j < before ==> split_spec(#[trigger] w[j]).1 != Some(tone),
        },
    decreases before,
{
    if before > 0 && split_spec(w[before - 1]).1 != Some(tone) {
        lemma_last_with_tone(w, before - 1, tone);
    }
}

/// The tone falls on a vowel of the cluster.
pub proof fn lemma_tone_offset_in_cluster(cluster: Seq<char>, has_final: bool)
    requires
        cluster.len() > 0,
    ensures
        0 <= tone_offset(cluster, has_final) < cluster.len(),
{
    lemma_first_priority_from(cluster, 0);
}

/// Where the tone goes depends on nothing but the vowels of the cluster,
/// without their tones and case, and on whether a final consonant follows:
/// two clusters that agree in these carry the tone on the same vowel.
pub proof fn lemma_tone_offset_depends_on_cluster_only(
    c1: Seq<char>,
    c2: Seq<char>,
    has_final: bool,
)
    requires
        c1.len() == c2.len(),
        forall|i: int| 0 <= i < c1.len() ==> base_lower_spec(c1[i]) == base_lower_spec(c2[i]),
    ensures
        tone_offset(c1, has_final) == tone_offset(c2, has_final),
{
    lemma_same_priority(c1, c2, 0);
    lemma_first_priority_from(c1, 0);
    let p = first_priority_from(c1, 0);
    if p < c1.len() {
        assert(base_lower_spec(c1[p]) == base_lower_spec(c2[p]));
        if p + 1 < c1.len() {
            assert(base_lower_spec(c1[p + 1]) == base_lower_spec(c2[p + 1]));
        }
    }
}

proof fn lemma_same_priority(c1: Seq<char>, c2: Seq<char>, i: int)
    requires
        c1.len() == c2.len(),
        0 <= i <= c1.len(),
        forall|i: int| 0 <= i < c1.len() ==> base_lower_spec(c1[i]) == base_lower_spec(c2[i]),
    ensures
        first_priority_from(c1, i) == first_priority_from(c2, i),
    decreases c1.len() - i,
{
    if i < c1.len() {
        assert(base_lower_spec(c1[i]) == base_lower_spec(c2[i]));
        lemma_same_priority(c1, c2, i + 1);
    }
}

/// Whether a vowel takes the tone wherever it stands in a cluster.
pub fn is_priority_vowel(ch: char) -> (r: bool)
    ensures
        r == is_priority_vowel_spec(ch),
{
    let b = base_lower(ch);
    b == 'ă' || b == 'â' || b == 'ê' || b == 'ô' || b == 'ơ' || b == 'ư'
}

/// The position of the vowel that carries the tone in the word
/// `buf[..len]`, whose vowel cluster is `buf[start..end]`.
pub fn tone_target_index(buf: &Vec<char>, len: usize, start: usize, end: usize) -> (r: usize)
    requires
        len <= buf.len(),
        start == cluster_start(buf@.take(len as int)),
        end == cluster_end(buf@.take(len as int)),
        start < end,
    ensures
        r == tone_target(buf@.take(len as int)),
        start <= r < end,
{
    let ghost w = buf@.take(len as int);
    let ghost c = cluster_of(w);
    proof {
        lemma_cluster_bounds(w);
        lemma_tone_offset_in_cluster(c, end < len);
    }
    let mut i: usize = start;
    while i < end
        invariant
            start <= i <= end <= len <= buf.len(),
            w == buf@.take(len as int),
            start == cluster_start(w),
            end == cluster_end(w),
            c == w.subrange(start as int, end as int),
            first_priority_from(c, 0) == first_priority_from(c, i - start),
        decreases end - i,
    {
        assert(c[i - start] == buf[i as int]);
        if is_priority_vowel(buf[i]) {
            let b = base_lower(buf[i]);
            if b == 'ư' && i + 1 < end {
                assert(c[i + 1 - start] == buf[i + 1]);
                if base_lower(buf[i + 1]) == 'ơ' {
                    return i + 1;
                }
            }
            return i;
        }
        i += 1;
    }
    if end < len {
        end - 1
    } else {
        start + (end - start - 1) / 2
    }
}

/// The first toned vowel in `buf[start..end]`, or `end`.
pub fn find_toned(buf: &Vec<char>, len: usize, start: usize, end: usize) -> (r: usize)
    requires
        start <= end <= len <= buf.len(),
    ensures
        r == first_toned_from(buf@.take(len as int), start as int, end as int),
        start <= r <= end,
{
    let ghost w = buf@.take(len as int);
    let mut i: usize = start;
    while i < end
        invariant
            start <= i <= end <= len <= buf.len(),
            w == buf@.take(len as int),
            first_toned_from(w, start as int, end as int) == first_toned_from(
                w,
                i as int,
                end as int,
            ),
        decreases end - i,
    {
        let (_, tone) = split_vowel_and_tone(buf[i]);
        if tone.is_some() {
            return i;
        }
        i += 1;
    }
    end
}

/// The last position before `before` whose character carries `tone`.
pub fn find_last_with_tone(buf: &Vec<char>, before: usize, tone: char) -> (r: Option<usize>)
    requires
        before <= buf.len(),
    ensures
        r is Some <==> last_with_tone(buf@, before as int, tone) is Some,
        r is Some ==> r->0 == last_with_tone(buf@, before as int, tone)->0 && r->0 < before,
{
    proof {
        lemma_last_with_tone(buf@, before as int, tone);
    }
    let mut index: usize = before;
    while index > 0
        invariant
            index <= before <= buf.len(),
            last_with_tone(buf@, before as int, tone) == last_with_tone(buf@, index as int, tone),
        decreases index,
    {
        index -= 1;
        let (_, t) = split_vowel_and_tone(buf[index]);
        match t {
            Some(found) => {
                if found == tone {
                    return Some(index);
                }
            },
            None => {},
        }
    }
    None
}

} // verus!
