use vstd::prelude::*;
use crate::classify::{classify_spec, KeyClass};
use crate::common::{InputMethod, WordModel, WTransformKind};
use crate::compound::{
    compound_chain_spec, compound_rule_spec, compound_site, escape_compound_spec, horn_at,
    horned_spec, rule_horns_pair, rule_kind, ua_escape_spec, unhorned_spec, CompoundRule,
};
use crate::diacritics::{
    apply_shape_preserving_tone_spec, apply_telex_w_preserving_tone_spec, base_lower_spec,
    escape_shape_preserving_tone_spec, remove_shape_spec, split_spec, toned_spec, VowelShape,
};
use crate::engine::FREE_TRANSFORM_WINDOW;
use crate::letters::{lemma_w_and_d_case, lower_char_spec};
use crate::process::{escape_spec, pushed, transform_spec};
use crate::search::{last_hit, lemma_last_hit, probe_hit, window_floor, Probe};
use crate::shape_escape::shape_escape_spec;
use crate::soundness::lemma_tone_target_in_cluster;
use crate::stroke::{d_stroke_spec, stroked_spec, unstroked_spec};
use crate::syllable::{cluster_end, cluster_start, lemma_cluster_bounds};
use crate::telex::{
    lemma_telex_match, telex_escape_char_for_key_spec, telex_escape_spec, telex_match, telex_w_site,
};
use crate::tone::{
    first_toned_from, last_with_tone, lemma_first_toned_from, lemma_last_with_tone, tone_target,
    toned_index,
};
use crate::tone_mark::{reposition_spec, tone_escape_spec, tone_mark_spec};
use crate::vni::{
    vni_apply_shape_for_key_spec, vni_escape_char_for_key_spec, vni_escape_spec, vni_shape_for_key,
};

verus! {

/// A character without a tone.
pub open spec fn is_toneless_char(ch: char) -> bool {
    split_spec(ch).1 is None
}

/// A character without a tone and without a shape.
pub open spec fn is_plain_char(ch: char) -> bool {
    &&& split_spec(ch).1 is None
    &&& remove_shape_spec(ch, VowelShape::Circumflex) is None
    &&& remove_shape_spec(ch, VowelShape::Horn) is None
    &&& remove_shape_spec(ch, VowelShape::Breve) is None
}

/// A word in which no vowel carries a tone.
pub open spec fn is_toneless_word(w: Seq<char>) -> bool {
    forall|i: int| 0 <= i < w.len() ==> is_toneless_char(#[trigger] w[i])
}

/// A word in which no vowel carries a tone or a shape.
pub open spec fn is_plain_word(w: Seq<char>) -> bool {
    forall|i: int| 0 <= i < w.len() ==> is_plain_char(#[trigger] w[i])
}

/// Whether a word is fresh for a key: a tone key finds no tone in it, a
/// shape key no tone and no shape, and the stroke key finds a `d` as its
/// last letter.
pub open spec fn is_fresh_for(w: Seq<char>, key: char, method: InputMethod) -> bool {
    match classify_spec(key, method) {
        KeyClass::ToneKey(_) => is_toneless_word(w),
        KeyClass::ShapeKey(_) => is_plain_word(w),
        KeyClass::ConsonantStrokeKey => w.len() > 0 && (w.last() == 'd' || w.last() == 'D'),
        _ => false,
    }
}

/// A tone key, a shape key and the stroke key carry no tone or shape
/// themselves.
pub proof fn lemma_keys_are_plain(key: char, method: InputMethod)
    requires
        classify_spec(key, method) is ToneKey || classify_spec(key, method) is ShapeKey
            || classify_spec(key, method) is ConsonantStrokeKey,
    ensures
        is_plain_char(key),
        is_toneless_char(key),
{
    reveal(split_spec);
    reveal(lower_char_spec);
}

/// No key finds anything to undo in a plain character.
pub proof fn lemma_plain_char(ch: char)
    requires
        is_plain_char(ch),
    ensures
        split_spec(ch) == (ch, None::<char>),
        forall|kind: VowelShape| escape_shape_preserving_tone_spec(ch, kind) is None,
        forall|key: char| vni_escape_char_for_key_spec(ch, key) is None,
        forall|key: char| telex_escape_char_for_key_spec(ch, key) is None,
        base_lower_spec(ch) == lower_char_spec(ch),
        base_lower_spec(ch) != 'ư',
        base_lower_spec(ch) != 'ơ',
        base_lower_spec(ch) != 'ă',
{
    reveal(split_spec);
    reveal(lower_char_spec);
}

/// A shape on a plain vowel comes off again and leaves the vowel as it
/// was, whichever key of either method took it off.
pub proof fn lemma_shape_round_trip(ch: char, kind: VowelShape)
    requires
        is_plain_char(ch),
        apply_shape_preserving_tone_spec(ch, kind) is Some,
    ensures
        escape_shape_preserving_tone_spec(apply_shape_preserving_tone_spec(ch, kind)->0, kind)
            == Some(ch),
        split_spec(apply_shape_preserving_tone_spec(ch, kind)->0).1 is None,
        kind == VowelShape::Horn ==> {
            &&& horned_spec(ch) == apply_shape_preserving_tone_spec(ch, kind)->0
            &&& unhorned_spec(horned_spec(ch)) == ch
            &&& telex_escape_char_for_key_spec(horned_spec(ch), 'w') == Some(ch)
            &&& base_lower_spec(ch) == 'u' ==> base_lower_spec(horned_spec(ch)) == 'ư'
            &&& base_lower_spec(ch) == 'o' ==> base_lower_spec(horned_spec(ch)) == 'ơ'
            &&& base_lower_spec(ch) == 'u' || base_lower_spec(ch) == 'o'
        },
        kind == VowelShape::Circumflex ==> telex_escape_char_for_key_spec(
            apply_shape_preserving_tone_spec(ch, kind)->0,
            base_lower_spec(ch),
        ) == Some(ch),
        kind == VowelShape::Circumflex ==> base_lower_spec(ch) == 'a' || base_lower_spec(ch)
            == 'e' || base_lower_spec(ch) == 'o',
{
    reveal(split_spec);
    reveal(toned_spec);
    reveal(lower_char_spec);
}

/// What the Telex key `w` makes of a plain vowel, the key taken again
/// turns back into the vowel.
pub proof fn lemma_telex_w_round_trip(ch: char)
    requires
        is_plain_char(ch),
        apply_telex_w_preserving_tone_spec(ch) is Some,
    ensures
        telex_escape_char_for_key_spec(apply_telex_w_preserving_tone_spec(ch)->0, 'w') == Some(ch),
        split_spec(apply_telex_w_preserving_tone_spec(ch)->0).1 is None,
{
    reveal(split_spec);
    reveal(toned_spec);
    reveal(lower_char_spec);
}

/// A tone on a vowel without one splits off again and leaves the vowel.
pub proof fn lemma_tone_round_trip(ch: char, tone: char)
    requires
        is_toneless_char(ch),
        toned_spec(ch, tone) is Some,
    ensures
        split_spec(toned_spec(ch, tone)->0) == (ch, Some(tone)),
{
    reveal(split_spec);
    reveal(toned_spec);
}

/// In a word without tones no search finds one.
pub proof fn lemma_toneless_word(w: Seq<char>, before: int)
    requires
        is_toneless_word(w),
        0 <= before <= w.len(),
    ensures
        forall|tone: char| last_with_tone(w, before, tone) is None,
        forall|i: int, end: int| 0 <= i <= end <= w.len() ==> first_toned_from(w, i, end) == end,
        forall|j: int| 0 <= j < w.len() ==> split_spec(#[trigger] w[j]) == (w[j], None::<char>),
{
    reveal(split_spec);
    assert forall|tone: char| last_with_tone(w, before, tone) is None by {
        lemma_last_with_tone(w, before, tone);
        if last_with_tone(w, before, tone) is Some {
            assert(is_toneless_char(w[last_with_tone(w, before, tone)->0]));
        }
    }
    assert forall|i: int, end: int| 0 <= i <= end <= w.len() implies first_toned_from(w, i, end)
        == end by {
        lemma_first_toned_from(w, i, end);
        if first_toned_from(w, i, end) < end {
            assert(is_toneless_char(w[first_toned_from(w, i, end)]));
        }
    }
    assert forall|j: int| 0 <= j < w.len() implies split_spec(#[trigger] w[j]) == (
        w[j],
        None::<char>,
    ) by {
        assert(is_toneless_char(w[j]));
    }
}

/// In a plain word no escape finds a vowel, no horn pair stands, and no
/// vowel carries a tone.
pub proof fn lemma_plain_word_has_nothing_to_undo(w: Seq<char>, before: int)
    requires
        is_plain_word(w),
        0 <= before <= w.len(),
    ensures
        forall|key: char| last_hit(w, before, 0, Probe::VniEscape(key)) is None,
        forall|key: char| last_hit(w, before, 0, Probe::TelexEscape(key)) is None,
        forall|second: char| last_hit(w, before, 0, Probe::HornPair(second)) is None,
        forall|tone: char| last_with_tone(w, before, tone) is None,
        forall|i: int, end: int| 0 <= i <= end <= w.len() ==> first_toned_from(w, i, end) == end,
{
    assert forall|key: char| last_hit(w, before, 0, Probe::VniEscape(key)) is None by {
        lemma_last_hit(w, before, 0, Probe::VniEscape(key));
        if last_hit(w, before, 0, Probe::VniEscape(key)) is Some {
            lemma_plain_char(w[last_hit(w, before, 0, Probe::VniEscape(key))->0]);
        }
    }
    assert forall|key: char| last_hit(w, before, 0, Probe::TelexEscape(key)) is None by {
        lemma_last_hit(w, before, 0, Probe::TelexEscape(key));
        if last_hit(w, before, 0, Probe::TelexEscape(key)) is Some {
            lemma_plain_char(w[last_hit(w, before, 0, Probe::TelexEscape(key))->0]);
        }
    }
    assert forall|second: char| last_hit(w, before, 0, Probe::HornPair(second)) is None by {
        lemma_last_hit(w, before, 0, Probe::HornPair(second));
        if last_hit(w, before, 0, Probe::HornPair(second)) is Some {
            lemma_plain_char(w[last_hit(w, before, 0, Probe::HornPair(second))->0]);
        }
    }
    assert forall|tone: char| last_with_tone(w, before, tone) is None by {
        lemma_last_with_tone(w, before, tone);
        if last_with_tone(w, before, tone) is Some {
            lemma_plain_char(w[last_with_tone(w, before, tone)->0]);
        }
    }
    assert forall|i: int, end: int| 0 <= i <= end <= w.len() implies first_toned_from(w, i, end)
        == end by {
        lemma_first_toned_from(w, i, end);
        if first_toned_from(w, i, end) < end {
            lemma_plain_char(w[first_toned_from(w, i, end)]);
        }
    }
}

/// Where a probe hits one position and none after it, the search finds
/// that position.
pub proof fn lemma_last_hit_is(w: Seq<char>, i: int, probe: Probe)
    requires
        0 <= i < w.len(),
        probe_hit(w, i, probe),
        forall|j: int| i < j < w.len() ==> !probe_hit(w, j, probe),
    ensures
        last_hit(w, w.len() as int, 0, probe) == Some(i),
{
    lemma_last_hit(w, w.len() as int, 0, probe);
}

/// The word that an undone transform leaves: the keys as they were typed,
/// nothing left to undo, and foreign mode.
pub open spec fn raw_word(w: Seq<char>, key: char) -> WordModel {
    WordModel {
        buffer: w.push(key),
        last_transform_key: None,
        last_w_transform_kind: WTransformKind::Unset,
        foreign_mode: true,
    }
}

/// A word without tones has no tone to move.
pub proof fn lemma_no_tone_no_move(b: Seq<char>)
    requires
        forall|j: int| 0 <= j < b.len() ==> split_spec(#[trigger] b[j]).1 is None,
    ensures
        reposition_spec(b) is None,
        toned_index(b) >= cluster_end(b),
{
    lemma_cluster_bounds(b);
    lemma_first_toned_from(b, cluster_start(b), cluster_end(b));
}

/// A tone put on a plain word comes off when its key is pressed again,
/// and the word is as it was typed.
pub proof fn lemma_tone_then_escape(word: WordModel, tone: char, ch: char, relaxed: bool)
    requires
        word.buffer.len() > 0,
        is_toneless_word(word.buffer.drop_last()),
        tone_mark_spec(word, tone, ch, relaxed) is Some,
    ensures
        crate::diacritics::is_tone_letter(tone),
        tone_mark_spec(word, tone, ch, relaxed)->0.word.last_transform_key == Some(ch),
        tone_mark_spec(word, tone, ch, relaxed)->0.word.foreign_mode == word.foreign_mode,
        tone_escape_spec(tone_mark_spec(word, tone, ch, relaxed)->0.word.buffer, ch, tone)
            is Some,
        tone_escape_spec(
            tone_mark_spec(word, tone, ch, relaxed)->0.word.buffer,
            ch,
            tone,
        )->0.word == raw_word(word.buffer.drop_last(), ch),
        forall|key: char|
            vni_escape_char_for_key_spec(
                tone_mark_spec(word, tone, ch, relaxed)->0.word.buffer.last(),
                key,
            ) is Some ==> key == '6' || key == '7' || key == '8',
{
    let n = word.buffer.len() - 1;
    let w = word.buffer.take(n);
    assert(w =~= word.buffer.drop_last());
    lemma_toneless_word(w, n);
    lemma_no_tone_no_move(w);
    lemma_cluster_bounds(w);
    lemma_tone_target_in_cluster(w);
    let g = tone_target(w);
    assert(is_toneless_char(w[g]));
    lemma_tone_round_trip(w[g], tone);
    let c = toned_spec(w[g], tone)->0;
    let b = w.update(g, c);
    assert(tone_mark_spec(word, tone, ch, relaxed)->0.word.buffer == b);
    lemma_last_with_tone(b, n, tone);
    assert(split_spec(b[g]).1 == Some(tone));
    assert forall|j: int| g < j < n implies split_spec(#[trigger] b[j]).1 != Some(tone) by {
        assert(is_toneless_char(w[j]));
    }
    assert(last_with_tone(b, n, tone) == Some(g));
    assert(b.update(g, split_spec(b[g]).0).push(ch) =~= w.push(ch));
}

/// A stroke put on the last letter comes off when its key is pressed
/// again, and the word is as it was typed.
pub proof fn lemma_stroke_then_escape(word: WordModel, key: char)
    requires
        word.buffer.len() > 1,
        word.buffer[word.buffer.len() - 2] == 'd' || word.buffer[word.buffer.len() - 2] == 'D',
    ensures
        d_stroke_spec(word, key) is Some,
        d_stroke_spec(word, key)->0.word.last_transform_key == Some(key),
        d_stroke_spec(word, key)->0.word.foreign_mode == word.foreign_mode,
        ({
            let b = d_stroke_spec(word, key)->0.word.buffer;
            &&& b.len() == word.buffer.len() - 1
            &&& b.last() == 'đ' || b.last() == 'Đ'
            &&& forall|ch: char| #[trigger]
                b.update(b.len() - 1, unstroked_spec(b.last())).push(ch)
                    == word.buffer.drop_last().push(ch)
        }),
{
    let n = word.buffer.len() - 1;
    let w = word.buffer.drop_last();
    let floor = window_floor(n, FREE_TRANSFORM_WINDOW as int);
    lemma_last_hit(word.buffer, n, floor, Probe::PlainD);
    assert(probe_hit(word.buffer, n - 1, Probe::PlainD));
    let b = w.update(n - 1, stroked_spec(w[n - 1]));
    assert(d_stroke_spec(word, key)->0.word.buffer =~= b);
    assert forall|ch: char| #[trigger]
        b.update(b.len() - 1, unstroked_spec(b.last())).push(ch) == w.push(ch) by {
        assert(b.update(b.len() - 1, unstroked_spec(b.last())).push(ch) =~= w.push(ch));
    }
}

/// A shape that a key put on one vowel of a plain word comes off when the
/// key is pressed again, and the word is as it was typed.
pub proof fn lemma_shape_then_escape(w: Seq<char>, i: int, shaped: char, probe: Probe, ch: char)
    requires
        is_plain_word(w),
        0 <= i < w.len(),
        probe is VniEscape || probe is TelexEscape,
        crate::shape_escape::probe_unshaped(shaped, probe) == w[i],
        probe_hit(w.update(i, shaped), i, probe),
    ensures
        shape_escape_spec(w.update(i, shaped), probe, ch) is Some,
        shape_escape_spec(w.update(i, shaped), probe, ch)->0.word == raw_word(w, ch),
{
    let b = w.update(i, shaped);
    assert forall|j: int| i < j < b.len() implies !probe_hit(b, j, probe) by {
        lemma_plain_char(w[j]);
    }
    lemma_last_hit_is(b, i, probe);
    assert(b.update(i, w[i]).push(ch) =~= w.push(ch));
}

/// After a compound rule on a plain word, the word holds the horns that
/// the rule put on, and nothing else to undo.
pub proof fn lemma_compound_on_plain_word(
    word: WordModel,
    rule: CompoundRule,
    trigger: char,
    auto_fix: bool,
)
    requires
        word.buffer.len() > 0,
        is_plain_word(word.buffer.drop_last()),
        compound_rule_spec(word, rule, trigger, auto_fix) is Some,
    ensures
        ({
            let w = word.buffer.drop_last();
            let i = compound_site(w, rule)->0;
            let o = compound_rule_spec(word, rule, trigger, auto_fix)->0;
            &&& compound_site(w, rule) is Some
            &&& 0 <= i && i + 1 < w.len()
            &&& o.word == WordModel {
                buffer: horn_at(w, i, rule_horns_pair(rule)),
                last_transform_key: Some(trigger),
                last_w_transform_kind: rule_kind(rule),
                foreign_mode: word.foreign_mode,
            }
            &&& horned_spec(w[i]) != w[i]
            &&& unhorned_spec(horned_spec(w[i])) == w[i]
            &&& base_lower_spec(horned_spec(w[i])) == 'ư' || base_lower_spec(horned_spec(w[i]))
                == 'ơ'
            &&& rule_horns_pair(rule) ==> {
                &&& base_lower_spec(horned_spec(w[i])) == 'ư'
                &&& base_lower_spec(horned_spec(w[i + 1])) == 'ơ'
                &&& unhorned_spec(horned_spec(w[i + 1])) == w[i + 1]
            }
            &&& rule == CompoundRule::Uaw ==> base_lower_spec(horned_spec(w[i])) == 'ư'
                && base_lower_spec(w[i + 1]) == 'a'
            &&& vni_escape_char_for_key_spec(horned_spec(w[i]), '7') == Some(w[i])
            &&& telex_escape_char_for_key_spec(horned_spec(w[i]), 'w') == Some(w[i])
        }),
{
    let n = word.buffer.len() - 1;
    let w = word.buffer.take(n);
    assert(w =~= word.buffer.drop_last());
    let i = compound_site(w, rule)->0;
    lemma_plain_char(w[i]);
    lemma_plain_char(w[i + 1]);
    assert(base_lower_spec(w[i]) == 'u' || base_lower_spec(w[i]) == 'o');
    lemma_horn_of_plain(w[i]);
    if rule_horns_pair(rule) {
        lemma_horn_of_plain(w[i + 1]);
    }
    let b = horn_at(w, i, rule_horns_pair(rule));
    assert forall|j: int| 0 <= j < b.len() implies split_spec(#[trigger] b[j]).1 is None by {
        lemma_plain_char(w[j]);
    }
    lemma_no_tone_no_move(b);
}

/// A plain `u` or `o` takes a horn, and the horn comes off again.
pub proof fn lemma_horn_of_plain(ch: char)
    requires
        is_plain_char(ch),
        base_lower_spec(ch) == 'u' || base_lower_spec(ch) == 'o',
    ensures
        apply_shape_preserving_tone_spec(ch, VowelShape::Horn) is Some,
        horned_spec(ch) != ch,
        unhorned_spec(horned_spec(ch)) == ch,
        split_spec(horned_spec(ch)).1 is None,
        base_lower_spec(ch) == 'u' ==> base_lower_spec(horned_spec(ch)) == 'ư',
        base_lower_spec(ch) == 'o' ==> base_lower_spec(horned_spec(ch)) == 'ơ',
        vni_escape_char_for_key_spec(horned_spec(ch), '7') == Some(ch),
        telex_escape_char_for_key_spec(horned_spec(ch), 'w') == Some(ch),
{
    reveal(split_spec);
    reveal(toned_spec);
    reveal(lower_char_spec);
}

/// The horns of a compound rule on a plain word come off when the key is
/// pressed again, and the word is as it was typed.
pub proof fn lemma_compound_then_escape(
    word: WordModel,
    rule: CompoundRule,
    trigger: char,
    auto_fix: bool,
    ch: char,
    after: WordModel,
)
    requires
        word.buffer.len() > 0,
        is_plain_word(word.buffer.drop_last()),
        compound_rule_spec(word, rule, trigger, auto_fix) is Some,
        after.buffer == compound_rule_spec(word, rule, trigger, auto_fix)->0.word.buffer,
        after.last_w_transform_kind == rule_kind(rule),
    ensures
        rule_kind(rule) != WTransformKind::Unset ==> escape_compound_spec(after, ch) is Some
            && escape_compound_spec(after, ch)->0.word == raw_word(word.buffer.drop_last(), ch),
        rule_kind(rule) == WTransformKind::Unset ==> {
            &&& escape_compound_spec(after, ch) is None
            &&& shape_escape_spec(after.buffer, Probe::VniEscape('7'), ch) is Some
            &&& shape_escape_spec(after.buffer, Probe::VniEscape('7'), ch)->0.word == raw_word(
                word.buffer.drop_last(),
                ch,
            )
            &&& shape_escape_spec(after.buffer, Probe::TelexEscape('w'), ch) is Some
            &&& shape_escape_spec(after.buffer, Probe::TelexEscape('w'), ch)->0.word == raw_word(
                word.buffer.drop_last(),
                ch,
            )
        },
{
    let w = word.buffer.drop_last();
    let i = compound_site(w, rule)->0;
    lemma_compound_on_plain_word(word, rule, trigger, auto_fix);
    let b = after.buffer;
    if rule_kind(rule) == WTransformKind::Unset {
        assert(b == w.update(i, horned_spec(w[i])));
        lemma_shape_then_escape(w, i, horned_spec(w[i]), Probe::VniEscape('7'), ch);
        lemma_shape_then_escape(w, i, horned_spec(w[i]), Probe::TelexEscape('w'), ch);
    } else {
        let second = if rule == CompoundRule::Uaw {
            'a'
        } else {
            'ơ'
        };
        assert(probe_hit(b, i, Probe::HornPair(second)));
        assert forall|j: int| i < j < b.len() implies !probe_hit(b, j, Probe::HornPair(second)) by {
            if j > i + 1 {
                lemma_plain_char(w[j]);
            } else if rule != CompoundRule::Uaw {
            } else {
                lemma_plain_char(w[j]);
            }
        }
        lemma_last_hit_is(b, i, Probe::HornPair(second));
        if rule == CompoundRule::Uaw {
            assert(b.update(i, unhorned_spec(b[i])).push(ch) =~= w.push(ch));
        } else {
            assert(b.update(i, unhorned_spec(b[i])).update(i + 1, unhorned_spec(b[i + 1])).push(ch)
                =~= w.push(ch));
        }
    }
}

/// In a word that is fresh for a key, the key finds no transform to undo.
pub proof fn lemma_fresh_word_escapes_nothing(word: WordModel, method: InputMethod, ch: char)
    requires
        is_fresh_for(word.buffer, ch, method),
    ensures
        escape_spec(word, method, ch) is None,
{
    let w = word.buffer;
    lemma_w_and_d_case(ch);
    match classify_spec(ch, method) {
        KeyClass::ToneKey(_) => {
            lemma_toneless_word(w, w.len() as int);
        },
        KeyClass::ShapeKey(_) => {
            lemma_plain_word_has_nothing_to_undo(w, w.len() as int);
            if w.len() > 0 {
                lemma_plain_char(w[w.len() - 1]);
            }
        },
        _ => {},
    }
}

/// The compound rules on a plain word: the rule that fires, if one does.
pub proof fn lemma_chain_on_plain_word(word: WordModel, trigger: char, auto_fix: bool)
    requires
        word.buffer.len() > 0,
        is_plain_word(word.buffer.drop_last()),
        compound_chain_spec(word, trigger, auto_fix) is Some,
    ensures
        exists|rule: CompoundRule|
            compound_rule_spec(word, rule, trigger, auto_fix) is Some && compound_chain_spec(
                word,
                trigger,
                auto_fix,
            ) == #[trigger] compound_rule_spec(word, rule, trigger, auto_fix),
{
    let n = word.buffer.len() - 1;
    if n >= 2 {
        lemma_plain_char(word.buffer.drop_last()[n - 1]);
    }
    assert(ua_escape_spec(word) is None);
    if compound_rule_spec(word, CompoundRule::UoFinalConsonant, trigger, auto_fix) is Some {
    } else if compound_rule_spec(word, CompoundRule::Uoi, trigger, auto_fix) is Some {
    } else if compound_rule_spec(word, CompoundRule::Uu, trigger, auto_fix) is Some {
    } else if compound_rule_spec(word, CompoundRule::Uou, trigger, auto_fix) is Some {
    } else if compound_rule_spec(word, CompoundRule::Ou, trigger, auto_fix) is Some {
    } else if compound_rule_spec(word, CompoundRule::Uow, trigger, auto_fix) is Some {
    } else {
        assert(compound_rule_spec(word, CompoundRule::Uaw, trigger, auto_fix) is Some);
    }
}

/// The escape law in VNI.
pub proof fn lemma_vni_escape_law(word: WordModel, auto_fix: bool, relaxed: bool, k: char)
    requires
        !word.foreign_mode,
        is_fresh_for(word.buffer, k, InputMethod::Vni),
        transform_spec(pushed(word, k), InputMethod::Vni, k, auto_fix, relaxed) is Some,
        !transform_spec(pushed(word, k), InputMethod::Vni, k, auto_fix, relaxed)->0.word.foreign_mode,
    ensures
        vni_escape_spec(
            transform_spec(pushed(word, k), InputMethod::Vni, k, auto_fix, relaxed)->0.word,
            k,
        ) is Some,
        vni_escape_spec(
            transform_spec(pushed(word, k), InputMethod::Vni, k, auto_fix, relaxed)->0.word,
            k,
        )->0.word == raw_word(word.buffer, k),
{
    let w = word.buffer;
    let n = w.len() as int;
    let with_key = pushed(word, k);
    assert(with_key.buffer.drop_last() =~= w);
    assert(with_key.buffer.take(n) =~= w);
    let o = transform_spec(with_key, InputMethod::Vni, k, auto_fix, relaxed)->0;
    let after = o.word;
    if k == '9' {
        lemma_stroke_then_escape(with_key, '9');
        let b = after.buffer;
        assert(b.update(b.len() - 1, unstroked_spec(b.last())).push('9') == w.push('9'));
    } else if k == '6' || k == '7' || k == '8' {
        let chain = if k == '7' {
            compound_chain_spec(with_key, '7', auto_fix)
        } else {
            None
        };
        if chain is Some {
            lemma_chain_on_plain_word(with_key, '7', auto_fix);
            let rule = choose|rule: CompoundRule|
                compound_rule_spec(with_key, rule, '7', auto_fix) is Some && compound_chain_spec(
                    with_key,
                    '7',
                    auto_fix,
                ) == #[trigger] compound_rule_spec(with_key, rule, '7', auto_fix);
            lemma_compound_on_plain_word(with_key, rule, '7', auto_fix);
            lemma_compound_then_escape(with_key, rule, '7', auto_fix, k, after);
        } else {
            let floor = window_floor(n, FREE_TRANSFORM_WINDOW as int);
            lemma_last_hit(with_key.buffer, n, floor, Probe::VniShape(k));
            let i = last_hit(with_key.buffer, n, floor, Probe::VniShape(k))->0;
            let kind = vni_shape_for_key(k)->0;
            lemma_plain_char(w[i]);
            lemma_shape_round_trip(w[i], kind);
            let shaped = vni_apply_shape_for_key_spec(w[i], k)->0;
            let b = w.update(i, shaped);
            assert forall|j: int| 0 <= j < b.len() implies split_spec(#[trigger] b[j]).1 is None by {
                lemma_plain_char(w[j]);
            }
            lemma_no_tone_no_move(b);
            assert(after.buffer == b);
            lemma_shape_then_escape(w, i, shaped, Probe::VniEscape(k), k);
        }
    } else {
        let tone = crate::vni::vni_tone_key_to_internal_spec(k)->0;
        lemma_tone_then_escape(with_key, tone, k, relaxed);
    }
}

/// The escape law in Telex.
pub proof fn lemma_telex_escape_law(word: WordModel, auto_fix: bool, relaxed: bool, k: char)
    requires
        !word.foreign_mode,
        is_fresh_for(word.buffer, k, InputMethod::Telex),
        transform_spec(pushed(word, k), InputMethod::Telex, k, auto_fix, relaxed) is Some,
        !transform_spec(pushed(word, k), InputMethod::Telex, k, auto_fix, relaxed)->0.word.foreign_mode,
    ensures
        telex_escape_spec(
            transform_spec(pushed(word, k), InputMethod::Telex, k, auto_fix, relaxed)->0.word,
            k,
        ) is Some,
        telex_escape_spec(
            transform_spec(pushed(word, k), InputMethod::Telex, k, auto_fix, relaxed)->0.word,
            k,
        )->0.word == raw_word(word.buffer, k),
{
    let w = word.buffer;
    let n = w.len() as int;
    let l = lower_char_spec(k);
    let with_key = pushed(word, k);
    assert(with_key.buffer.drop_last() =~= w);
    assert(with_key.buffer.take(n) =~= w);
    let o = transform_spec(with_key, InputMethod::Telex, k, auto_fix, relaxed)->0;
    let after = o.word;
    lemma_w_and_d_case(k);
    lemma_w_and_d_case('d');
    lemma_w_and_d_case('w');
    crate::letters::lemma_lower_idempotent(k);
    if l == 'd' {
        lemma_stroke_then_escape(with_key, 'd');
        let b = after.buffer;
        assert(b.update(b.len() - 1, unstroked_spec(b.last())).push(k) == w.push(k));
    } else if l == 'w' {
        if compound_chain_spec(with_key, 'w', auto_fix) is Some {
            lemma_chain_on_plain_word(with_key, 'w', auto_fix);
            let rule = choose|rule: CompoundRule|
                compound_rule_spec(with_key, rule, 'w', auto_fix) is Some && compound_chain_spec(
                    with_key,
                    'w',
                    auto_fix,
                ) == #[trigger] compound_rule_spec(with_key, rule, 'w', auto_fix);
            lemma_compound_on_plain_word(with_key, rule, 'w', auto_fix);
            lemma_compound_then_escape(with_key, rule, 'w', auto_fix, k, after);
        } else {
            lemma_last_hit(
                with_key.buffer,
                n,
                window_floor(n, FREE_TRANSFORM_WINDOW as int),
                Probe::TelexW,
            );
            match telex_w_site(with_key.buffer, n) {
                Some(i) => {
                    lemma_plain_char(w[i]);
                    lemma_telex_w_round_trip(w[i]);
                    let shaped = apply_telex_w_preserving_tone_spec(w[i])->0;
                    assert(after.buffer == w.update(i, shaped));
                    lemma_shape_then_escape(w, i, shaped, Probe::TelexEscape('w'), k);
                },
                None => {
                    let b = after.buffer;
                    assert(b.update(b.len() - 1, k) =~= w.push(k));
                },
            }
        }
    } else if l == 'a' || l == 'e' || l == 'o' {
        let floor = window_floor(n, FREE_TRANSFORM_WINDOW as int);
        lemma_telex_match(with_key.buffer, n, floor, l, false);
        let i = telex_match(with_key.buffer, n, floor, l, false)->0;
        lemma_plain_char(w[i]);
        lemma_shape_round_trip(w[i], VowelShape::Circumflex);
        let shaped = apply_shape_preserving_tone_spec(w[i], VowelShape::Circumflex)->0;
        let b = w.update(i, shaped);
        assert forall|j: int| 0 <= j < b.len() implies split_spec(#[trigger] b[j]).1 is None by {
            lemma_plain_char(w[j]);
        }
        lemma_no_tone_no_move(b);
        assert(after.buffer == b);
        lemma_shape_then_escape(w, i, shaped, Probe::TelexEscape(l), k);
        if i == n - 1 {
            assert(b.update(n - 1, w[i]).push(k) =~= w.push(k));
        } else {
            lemma_plain_char(w[n - 1]);
        }
    } else {
        lemma_tone_then_escape(with_key, l, k, relaxed);
        let b = after.buffer;
        if b.len() > 0 {
            assert(telex_escape_char_for_key_spec(b.last(), l) is None);
        }
    }
}

} // verus!
