use vstd::prelude::*;
use crate::common::{rewrite_fits, InputMethod, Outcome, WordModel};
use crate::compound::{
    compound_chain_spec, compound_rule_spec, compound_site, escape_compound_spec, finish_shape_spec,
    horn_at, horned_spec, rule_horns_pair, ua_escape_spec, unbreved_spec, unhorned_spec,
    CompoundRule,
};
use crate::diacritics::{
    apply_telex_w_preserving_tone_spec, lemma_transforms_keep_case, lemma_transforms_make_letters,
    split_spec, VowelShape,
};
use crate::engine::{FREE_TRANSFORM_WINDOW, keeps_case, keeps_separators_out, lemma_rewrite_at_fits};
use crate::letters::{is_separator_spec, is_upper_spec, lemma_stroke_keeps_case, lemma_w_and_d_case};
use crate::process::{after_refusal, escape_spec, key_spec, literal_spec, pushed, transform_spec};
use crate::search::{last_hit, lemma_last_hit, window_floor, Probe};
use crate::shape_escape::shape_escape_spec;
use crate::stroke::d_stroke_spec;
use crate::syllable::{cluster_end, cluster_start, lemma_cluster_bounds};
use crate::telex::{
    lemma_telex_match, telex_escape_spec, telex_match, telex_vowel_transform_spec, telex_w_site,
};
use crate::tone::{
    cluster_of, last_with_tone, lemma_first_toned_from, lemma_last_with_tone,
    lemma_tone_offset_in_cluster, tone_target, toned_index,
};
use crate::tone_mark::{reposition_spec, tone_escape_spec, tone_mark_spec};
use crate::vni::{vni_escape_spec, vni_vowel_transform_spec};

verus! {

/// An outcome is sound for a display and a key when its rewrite turns the
/// display into its word, no displayed character changes its case, and no
/// separator but the key comes into the word.
pub open spec fn outcome_sound(display: Seq<char>, key: char, o: Outcome) -> bool {
    &&& rewrite_fits(display, o.word.buffer, o.rewrite)
    &&& keeps_case(display, o.word.buffer)
    &&& keeps_separators_out(display, key, o.word.buffer)
}

/// The same for an outcome that may be none.
pub open spec fn sound_or_none(display: Seq<char>, key: char, o: Option<Outcome>) -> bool {
    o is Some ==> outcome_sound(display, key, o->0)
}

/// No transform of a vowel changes its case or makes a separator of it.
pub proof fn lemma_char_facts(ch: char, kind: VowelShape, tone: Option<char>)
    ensures
        is_upper_spec(split_spec(ch).0) == is_upper_spec(ch),
        is_separator_spec(split_spec(ch).0) ==> split_spec(ch).0 == ch,
        crate::diacritics::apply_tone_spec(ch, tone) is Some ==> {
            &&& is_upper_spec(crate::diacritics::apply_tone_spec(ch, tone)->0) == is_upper_spec(ch)
            &&& is_separator_spec(crate::diacritics::apply_tone_spec(ch, tone)->0)
                ==> crate::diacritics::apply_tone_spec(ch, tone)->0 == ch
        },
        crate::diacritics::apply_shape_preserving_tone_spec(ch, kind) is Some ==> {
            &&& is_upper_spec(crate::diacritics::apply_shape_preserving_tone_spec(ch, kind)->0)
                == is_upper_spec(ch)
            &&& !is_separator_spec(crate::diacritics::apply_shape_preserving_tone_spec(ch, kind)->0)
        },
        crate::diacritics::escape_shape_preserving_tone_spec(ch, kind) is Some ==> {
            &&& is_upper_spec(crate::diacritics::escape_shape_preserving_tone_spec(ch, kind)->0)
                == is_upper_spec(ch)
            &&& !is_separator_spec(
                crate::diacritics::escape_shape_preserving_tone_spec(ch, kind)->0,
            )
        },
        apply_telex_w_preserving_tone_spec(ch) is Some ==> {
            &&& is_upper_spec(apply_telex_w_preserving_tone_spec(ch)->0) == is_upper_spec(ch)
            &&& !is_separator_spec(apply_telex_w_preserving_tone_spec(ch)->0)
        },
{
    lemma_transforms_keep_case(ch, kind, tone);
    lemma_transforms_make_letters(ch, kind, tone);
}

/// The target of the tone lies in the vowel cluster.
pub proof fn lemma_tone_target_in_cluster(w: Seq<char>)
    requires
        cluster_start(w) < cluster_end(w),
    ensures
        cluster_start(w) <= tone_target(w) < cluster_end(w),
{
    lemma_cluster_bounds(w);
    lemma_tone_offset_in_cluster(cluster_of(w), cluster_end(w) < w.len());
}

/// Moving the tone changes two vowels of the cluster, keeps every case,
/// and leaves the word before the first of the two as it was.
pub proof fn lemma_reposition_sound(w: Seq<char>)
    ensures
        match reposition_spec(w) {
            Some((b, s)) => {
                &&& b.len() == w.len()
                &&& 0 <= s < w.len() - 1
                &&& forall|j: int| 0 <= j < s ==> b[j] == w[j]
                &&& keeps_case(w, b)
                &&& forall|j: int|
                    0 <= j < b.len() && is_separator_spec(#[trigger] b[j]) ==> b[j] == w[j]
            },
            None => true,
        },
{
    if reposition_spec(w) is Some {
        lemma_cluster_bounds(w);
        lemma_tone_target_in_cluster(w);
        let t = toned_index(w);
        let g = tone_target(w);
        lemma_first_toned_from(w, cluster_start(w), cluster_end(w));
        lemma_char_facts(w[t], VowelShape::Horn, None);
        lemma_char_facts(w[g], VowelShape::Horn, None);
        lemma_char_facts(split_spec(w[g]).0, VowelShape::Horn, split_spec(w[t]).1);
    }
}

/// Pressing a tone key again is sound.
pub proof fn lemma_tone_escape_sound(w: Seq<char>, ch: char, tone: char)
    ensures
        sound_or_none(w, ch, tone_escape_spec(w, ch, tone)),
{
    lemma_last_with_tone(w, w.len() as int, tone);
    match last_with_tone(w, w.len() as int, tone) {
        Some(i) => {
            lemma_char_facts(w[i], VowelShape::Horn, None);
            lemma_rewrite_at_fits(w, w.update(i, split_spec(w[i]).0).push(ch), i);
        },
        None => {},
    }
}

/// A tone key is sound for the word before the key.
pub proof fn lemma_tone_mark_sound(word: WordModel, tone_key: char, ch: char, relaxed: bool)
    requires
        word.buffer.len() > 0,
        word.buffer.last() == ch,
    ensures
        sound_or_none(
            word.buffer.drop_last(),
            word.buffer.last(),
            tone_mark_spec(word, tone_key, ch, relaxed),
        ),
{
    let n = word.buffer.len() - 1;
    let w = word.buffer.take(n);
    assert(w =~= word.buffer.drop_last());
    let o = tone_mark_spec(word, tone_key, ch, relaxed);
    if o is Some {
        lemma_cluster_bounds(w);
        lemma_tone_target_in_cluster(w);
        lemma_first_toned_from(w, cluster_start(w), cluster_end(w));
        lemma_tone_escape_sound(w, ch, tone_key);
        let t = toned_index(w);
        let g = tone_target(w);
        if t < cluster_end(w) {
            lemma_char_facts(w[t], VowelShape::Horn, None);
        }
        lemma_char_facts(w[g], VowelShape::Horn, None);
        lemma_char_facts(split_spec(w[g]).0, VowelShape::Horn, Some(tone_key));
        lemma_rewrite_at_fits(w, o->0.word.buffer, n - o->0.rewrite.delete_count);
    }
}

/// The stroke key is sound for the word before the key.
pub proof fn lemma_d_stroke_sound(word: WordModel, key: char)
    requires
        word.buffer.len() > 0,
    ensures
        sound_or_none(
            word.buffer.drop_last(),
            word.buffer.last(),
            d_stroke_spec(word, key),
        ),
{
    let n = word.buffer.len() - 1;
    let o = d_stroke_spec(word, key);
    lemma_last_hit(word.buffer, n, window_floor(n, FREE_TRANSFORM_WINDOW as int), Probe::PlainD);
    if o is Some {
        lemma_stroke_keeps_case();
        lemma_rewrite_at_fits(
            word.buffer.drop_last(),
            o->0.word.buffer,
            n - o->0.rewrite.delete_count,
        );
    }
}

/// Pressing a shape key again is sound.
pub proof fn lemma_shape_escape_sound(w: Seq<char>, probe: Probe, ch: char)
    requires
        probe is VniEscape || probe is TelexEscape,
    ensures
        sound_or_none(w, ch, shape_escape_spec(w, probe, ch)),
{
    lemma_last_hit(w, w.len() as int, 0, probe);
    let o = shape_escape_spec(w, probe, ch);
    if o is Some {
        let i = last_hit(w, w.len() as int, 0, probe)->0;
        lemma_char_facts(w[i], VowelShape::Circumflex, None);
        lemma_char_facts(w[i], VowelShape::Horn, None);
        lemma_char_facts(w[i], VowelShape::Breve, None);
        lemma_rewrite_at_fits(w, o->0.word.buffer, i);
    }
}

/// Putting a horn on a vowel or taking a horn or breve off keeps its case
/// and makes no separator of it.
pub proof fn lemma_horn_keeps_case(ch: char)
    ensures
        is_upper_spec(horned_spec(ch)) == is_upper_spec(ch),
        is_upper_spec(unhorned_spec(ch)) == is_upper_spec(ch),
        is_upper_spec(unbreved_spec(ch)) == is_upper_spec(ch),
        is_separator_spec(horned_spec(ch)) ==> horned_spec(ch) == ch,
        is_separator_spec(unhorned_spec(ch)) ==> unhorned_spec(ch) == ch,
        is_separator_spec(unbreved_spec(ch)) ==> unbreved_spec(ch) == ch,
{
    lemma_char_facts(ch, VowelShape::Horn, None);
    lemma_char_facts(ch, VowelShape::Breve, None);
}

/// Pressing the horn key again after a compound rule is sound.
pub proof fn lemma_escape_compound_sound(word: WordModel, ch: char)
    ensures
        sound_or_none(word.buffer, ch, escape_compound_spec(word, ch)),
{
    let w = word.buffer;
    let o = escape_compound_spec(word, ch);
    lemma_last_hit(w, w.len() as int, 0, Probe::HornPair('ơ'));
    lemma_last_hit(w, w.len() as int, 0, Probe::HornPair('a'));
    if o is Some {
        let i = w.len() - o->0.rewrite.delete_count;
        lemma_horn_keeps_case(w[i]);
        lemma_horn_keeps_case(w[i + 1]);
        lemma_rewrite_at_fits(w, o->0.word.buffer, i);
    }
}

/// The end of a shape change is sound where the change itself was.
pub proof fn lemma_finish_shape_sound(
    word: WordModel,
    display: Seq<char>,
    buffer: Seq<char>,
    key: char,
    kind: crate::common::WTransformKind,
    i: int,
    auto_fix: bool,
    typed: char,
)
    requires
        0 <= i < buffer.len(),
        buffer.len() == display.len(),
        forall|j: int| 0 <= j < i ==> buffer[j] == display[j],
        keeps_case(display, buffer),
        keeps_separators_out(display, typed, buffer),
    ensures
        outcome_sound(
            display,
            typed,
            finish_shape_spec(word, display.len() as int, buffer, key, kind, i, auto_fix),
        ),
{
    let o = finish_shape_spec(word, display.len() as int, buffer, key, kind, i, auto_fix);
    lemma_reposition_sound(buffer);
    let start = display.len() - o.rewrite.delete_count;
    lemma_rewrite_at_fits(display, o.word.buffer, start);
    assert forall|j: int| 0 <= j < display.len() && j < o.word.buffer.len() implies is_upper_spec(
        #[trigger] o.word.buffer[j],
    ) == is_upper_spec(display[j]) by {
        assert(is_upper_spec(buffer[j]) == is_upper_spec(display[j]));
    }
    assert forall|j: int|
        0 <= j < o.word.buffer.len() && is_separator_spec(
            #[trigger] o.word.buffer[j],
        ) implies o.word.buffer[j] == typed || (j < display.len() && o.word.buffer[j]
        == display[j]) by {
        assert(is_separator_spec(buffer[j]) ==> buffer[j] == typed || buffer[j] == display[j]);
    }
}

/// Where a compound rule applies, its vowels lie in the word.
pub proof fn lemma_compound_site(w: Seq<char>, rule: CompoundRule)
    ensures
        compound_site(w, rule) is Some ==> 0 <= compound_site(w, rule)->0 && compound_site(
            w,
            rule,
        )->0 + 1 < w.len(),
{
}

/// A compound rule is sound for the word before the key.
pub proof fn lemma_compound_rule_sound(
    word: WordModel,
    rule: CompoundRule,
    trigger: char,
    auto_fix: bool,
)
    requires
        word.buffer.len() > 0,
    ensures
        sound_or_none(
            word.buffer.drop_last(),
            word.buffer.last(),
            compound_rule_spec(word, rule, trigger, auto_fix),
        ),
{
    let n = word.buffer.len() - 1;
    let w = word.buffer.take(n);
    assert(w =~= word.buffer.drop_last());
    lemma_compound_site(w, rule);
    match compound_site(w, rule) {
        Some(i) => {
            lemma_horn_keeps_case(w[i]);
            lemma_horn_keeps_case(w[i + 1]);
            lemma_finish_shape_sound(
                word,
                w,
                horn_at(w, i, rule_horns_pair(rule)),
                trigger,
                crate::compound::rule_kind(rule),
                i,
                auto_fix,
                word.buffer.last(),
            );
        },
        None => {},
    }
}

/// The horn key after `u` and `ă` is sound for the word before the key.
pub proof fn lemma_ua_escape_sound(word: WordModel)
    requires
        word.buffer.len() > 0,
    ensures
        sound_or_none(
            word.buffer.drop_last(),
            word.buffer.last(),
            ua_escape_spec(word),
        ),
{
    let n = word.buffer.len() - 1;
    let o = ua_escape_spec(word);
    if o is Some {
        lemma_horn_keeps_case(word.buffer[n - 1]);
        lemma_rewrite_at_fits(word.buffer.drop_last(), o->0.word.buffer, n - 1);
    }
}

/// The compound rules in their order are sound for the word before the key.
pub proof fn lemma_compound_chain_sound(word: WordModel, trigger: char, auto_fix: bool)
    requires
        word.buffer.len() > 0,
    ensures
        sound_or_none(
            word.buffer.drop_last(),
            word.buffer.last(),
            compound_chain_spec(word, trigger, auto_fix),
        ),
{
    lemma_ua_escape_sound(word);
    lemma_compound_rule_sound(word, CompoundRule::UoFinalConsonant, trigger, auto_fix);
    lemma_compound_rule_sound(word, CompoundRule::Uoi, trigger, auto_fix);
    lemma_compound_rule_sound(word, CompoundRule::Uu, trigger, auto_fix);
    lemma_compound_rule_sound(word, CompoundRule::Uou, trigger, auto_fix);
    lemma_compound_rule_sound(word, CompoundRule::Ou, trigger, auto_fix);
    lemma_compound_rule_sound(word, CompoundRule::Uow, trigger, auto_fix);
    lemma_compound_rule_sound(word, CompoundRule::Uaw, trigger, auto_fix);
}

/// A VNI key pressed again is sound.
pub proof fn lemma_vni_escape_sound(word: WordModel, ch: char)
    ensures
        sound_or_none(word.buffer, ch, vni_escape_spec(word, ch)),
{
    let w = word.buffer;
    let o = vni_escape_spec(word, ch);
    lemma_escape_compound_sound(word, ch);
    lemma_shape_escape_sound(w, Probe::VniEscape(ch), ch);
    lemma_tone_escape_sound(w, ch, crate::vni::vni_tone_key_to_internal_spec(ch)->0);
    if o is Some {
        lemma_stroke_keeps_case();
        lemma_rewrite_at_fits(w, o->0.word.buffer, w.len() - o->0.rewrite.delete_count);
    }
}

/// A Telex key pressed again is sound.
pub proof fn lemma_telex_escape_sound(word: WordModel, ch: char)
    ensures
        sound_or_none(word.buffer, ch, telex_escape_spec(word, ch)),
{
    let w = word.buffer;
    let l = crate::letters::lower_char_spec(ch);
    let o = telex_escape_spec(word, ch);
    lemma_escape_compound_sound(word, ch);
    lemma_shape_escape_sound(w, Probe::TelexEscape('w'), ch);
    lemma_shape_escape_sound(w, Probe::TelexEscape(l), ch);
    lemma_tone_escape_sound(w, ch, l);
    if o is Some {
        lemma_stroke_keeps_case();
        lemma_w_and_d_case(ch);
        if w.len() > 0 {
            lemma_char_facts(w[w.len() - 1], VowelShape::Circumflex, None);
            lemma_char_facts(w[w.len() - 1], VowelShape::Horn, None);
            lemma_char_facts(w[w.len() - 1], VowelShape::Breve, None);
        }
        lemma_rewrite_at_fits(w, o->0.word.buffer, w.len() - o->0.rewrite.delete_count);
    }
}

/// A VNI shape key is sound for the word before the key.
pub proof fn lemma_vni_vowel_transform_sound(word: WordModel, ch: char, auto_fix: bool)
    requires
        word.buffer.len() > 0,
    ensures
        sound_or_none(
            word.buffer.drop_last(),
            word.buffer.last(),
            vni_vowel_transform_spec(word, ch, auto_fix),
        ),
{
    let n = word.buffer.len() - 1;
    let w = word.buffer.take(n);
    assert(w =~= word.buffer.drop_last());
    lemma_compound_chain_sound(word, '7', auto_fix);
    let floor = window_floor(n, FREE_TRANSFORM_WINDOW as int);
    lemma_last_hit(word.buffer, n, floor, Probe::VniShape(ch));
    match last_hit(word.buffer, n, floor, Probe::VniShape(ch)) {
        Some(i) => {
            lemma_char_facts(w[i], VowelShape::Circumflex, None);
            lemma_char_facts(w[i], VowelShape::Horn, None);
            lemma_char_facts(w[i], VowelShape::Breve, None);
            lemma_finish_shape_sound(
                word,
                w,
                w.update(i, crate::vni::vni_apply_shape_for_key_spec(word.buffer[i], ch)->0),
                ch,
                crate::common::WTransformKind::Unset,
                i,
                auto_fix,
                word.buffer.last(),
            );
        },
        None => {},
    }
}

/// A Telex shape key is sound for the word before the key.
pub proof fn lemma_telex_vowel_transform_sound(word: WordModel, ch: char, auto_fix: bool)
    requires
        word.buffer.len() > 0,
    ensures
        sound_or_none(
            word.buffer.drop_last(),
            word.buffer.last(),
            telex_vowel_transform_spec(word, ch, auto_fix),
        ),
{
    let n = word.buffer.len() - 1;
    let w = word.buffer.take(n);
    assert(w =~= word.buffer.drop_last());
    let l = crate::letters::lower_char_spec(ch);
    let o = telex_vowel_transform_spec(word, ch, auto_fix);
    lemma_compound_chain_sound(word, 'w', auto_fix);
    lemma_last_hit(
        word.buffer,
        n,
        window_floor(n, FREE_TRANSFORM_WINDOW as int),
        Probe::TelexW,
    );
    let floor = window_floor(n, FREE_TRANSFORM_WINDOW as int);
    lemma_telex_match(word.buffer, n, floor, l, false);
    if o is Some {
        if l == 'w' {
            if compound_chain_spec(word, 'w', auto_fix) is None {
                match telex_w_site(word.buffer, n) {
                    Some(i) => {
                        lemma_char_facts(w[i], VowelShape::Horn, None);
                    },
                    None => {},
                }
                lemma_rewrite_at_fits(w, o->0.word.buffer, n - o->0.rewrite.delete_count);
            }
        } else {
            let i = telex_match(word.buffer, n, floor, l, false)->0;
            lemma_char_facts(w[i], VowelShape::Circumflex, None);
            lemma_finish_shape_sound(
                word,
                w,
                w.update(
                    i,
                    crate::diacritics::apply_shape_preserving_tone_spec(
                        word.buffer[i],
                        VowelShape::Circumflex,
                    )->0,
                ),
                ch,
                crate::common::WTransformKind::Unset,
                i,
                auto_fix,
                word.buffer.last(),
            );
        }
    }
}

/// Every key that repeats the key of the last transform is sound.
pub proof fn lemma_escape_sound(word: WordModel, method: InputMethod, ch: char)
    ensures
        sound_or_none(word.buffer, ch, escape_spec(word, method, ch)),
        escape_spec(word, method, ch) is Some ==> {
            &&& escape_spec(word, method, ch)->0.word.foreign_mode
            &&& escape_spec(word, method, ch)->0.word.last_transform_key is None
        },
{
    lemma_vni_escape_sound(word, ch);
    lemma_telex_escape_sound(word, ch);
}

/// Every transform is sound for the word before the key.
pub proof fn lemma_transform_sound(
    word: WordModel,
    method: InputMethod,
    ch: char,
    auto_fix: bool,
    relaxed: bool,
)
    requires
        word.buffer.len() > 0,
        word.buffer.last() == ch,
    ensures
        sound_or_none(
            word.buffer.drop_last(),
            word.buffer.last(),
            transform_spec(word, method, ch, auto_fix, relaxed),
        ),
{
    lemma_d_stroke_sound(word, 'd');
    lemma_d_stroke_sound(word, '9');
    lemma_vni_vowel_transform_sound(word, ch, auto_fix);
    lemma_telex_vowel_transform_sound(word, ch, auto_fix);
    lemma_tone_mark_sound(word, crate::letters::lower_char_spec(ch), ch, relaxed);
    lemma_tone_mark_sound(word, crate::vni::vni_tone_key_to_internal_spec(ch)->0, ch, relaxed);
}

/// What a key that is no boundary returns turns the display of the word
/// into the word as it is after the key: it deletes no more than the word
/// showed, and where nothing is returned the key itself is what the
/// display gains. No character that the display showed changes its case.
pub proof fn lemma_key_sound(
    word: WordModel,
    method: InputMethod,
    auto_fix: bool,
    relaxed: bool,
    ch: char,
)
    ensures
        ({
            let (after, rewrite) = key_spec(word, method, auto_fix, relaxed, ch);
            &&& after.buffer == crate::common::display_after(word.buffer, ch, rewrite)
            &&& rewrite is Some ==> 0 <= rewrite->0.delete_count <= word.buffer.len()
            &&& keeps_case(word.buffer, after.buffer)
            &&& keeps_separators_out(word.buffer, ch, after.buffer)
        }),
{
    reveal(key_spec);
    let display = word.buffer;
    let with_key = pushed(word, ch);
    assert(with_key.buffer.drop_last() =~= display);
    lemma_escape_sound(word, method, ch);
    lemma_transform_sound(with_key, method, ch, auto_fix, relaxed);
    lemma_reposition_sound(with_key.buffer);
    if !word.foreign_mode && escape_spec(word, method, ch) is None && transform_spec(
        with_key,
        method,
        ch,
        auto_fix,
        relaxed,
    ) is None {
        let (after, rewrite) = literal_spec(
            after_refusal(with_key, method, ch, relaxed),
            auto_fix,
            relaxed,
        );
        if rewrite is Some {
            let moved = reposition_spec(with_key.buffer)->0;
            lemma_rewrite_at_fits(display, moved.0, moved.1);
        }
    }
}

} // verus!
