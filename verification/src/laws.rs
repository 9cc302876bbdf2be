use vstd::prelude::*;
use crate::classify::{classify_spec, is_escape_candidate_spec};
use crate::common::{display_after, InputMethod, Rewrite, WordModel};
use crate::diacritics::{base_lower_spec, split_spec};
use crate::engine::{is_clean, VitypeEngine};
use crate::escape_law::{
    is_fresh_for, is_plain_char, is_toneless_char, lemma_fresh_word_escapes_nothing,
    lemma_keys_are_plain, lemma_no_tone_no_move, lemma_stroke_then_escape, lemma_telex_escape_law,
    lemma_vni_escape_law, raw_word,
};
use crate::history::{closed_word, commit_spec, trim_history};
use crate::letters::lemma_w_and_d_case;
use crate::process::{
    empty_word, is_word_boundary_spec, key_spec, pushed, rewrite_of, transform_spec, word_after,
    Settings,
};
use crate::soundness::{lemma_escape_sound, lemma_key_sound};
use crate::syllable::{cluster_end, cluster_start, syllable_ok};
use crate::tone::{cluster_of, lemma_tone_offset_depends_on_cluster_only, tone_target};

verus! {

/// The word in progress after a stream of keys.
pub open spec fn word_after_keys(word: WordModel, s: Settings, keys: Seq<char>) -> WordModel
    decreases keys.len(),
{
    if keys.len() == 0 {
        word
    } else {
        word_after(word_after_keys(word, s, keys.drop_last()), s, keys.last())
    }
}

/// The display of a host that carries out, key by key, what the engine
/// returns: it deletes and appends as an action says, and appends the key
/// itself where there is none.
pub open spec fn display_after_keys(
    word: WordModel,
    s: Settings,
    display: Seq<char>,
    keys: Seq<char>,
) -> Seq<char>
    decreases keys.len(),
{
    if keys.len() == 0 {
        display
    } else {
        display_after(
            display_after_keys(word, s, display, keys.drop_last()),
            keys.last(),
            rewrite_of(word_after_keys(word, s, keys.drop_last()), s, keys.last()),
        )
    }
}

/// No action of a stream of keys deletes more than the display holds at
/// that moment.
pub open spec fn deletes_fit(word: WordModel, s: Settings, display: Seq<char>, keys: Seq<char>) -> bool
    decreases keys.len(),
{
    keys.len() == 0 || {
        &&& deletes_fit(word, s, display, keys.drop_last())
        &&& match rewrite_of(word_after_keys(word, s, keys.drop_last()), s, keys.last()) {
            Some(rw) => 0 <= rw.delete_count <= display_after_keys(
                word,
                s,
                display,
                keys.drop_last(),
            ).len(),
            None => true,
        }
    }
}

/// A display ends with a word.
pub open spec fn ends_with(display: Seq<char>, word: Seq<char>) -> bool {
    word.len() <= display.len() && display.skip(display.len() - word.len()) == word
}

/// A rewrite that fits the word fits every display that ends with the
/// word, and leaves what the display held before the word untouched.
pub proof fn lemma_rewrite_on_longer_display(
    display: Seq<char>,
    word: Seq<char>,
    key: char,
    rewrite: Option<Rewrite>,
)
    requires
        ends_with(display, word),
        rewrite is Some ==> 0 <= rewrite->0.delete_count <= word.len(),
    ensures
        ends_with(display_after(display, key, rewrite), display_after(word, key, rewrite)),
        display.take(display.len() - word.len()) == display_after(display, key, rewrite).take(
            display.len() - word.len(),
        ),
{
    let before = display.len() - word.len();
    let shown = display_after(display, key, rewrite);
    let own = display_after(word, key, rewrite);
    assert(display =~= display.take(before) + word);
    assert(shown =~= display.take(before) + own);
    assert(shown.skip(shown.len() - own.len()) =~= own);
    assert(display.take(before) =~= shown.take(before));
}

/// One key keeps the display in step with the engine: where the display
/// ended with the word in progress before the key, it ends with the word
/// in progress after it; the action deletes no more than the word showed;
/// and what the display held before the word is untouched.
pub proof fn lemma_display_follows_key(word: WordModel, s: Settings, display: Seq<char>, ch: char)
    requires
        ends_with(display, word.buffer),
    ensures
        ends_with(
            display_after(display, ch, rewrite_of(word, s, ch)),
            word_after(word, s, ch).buffer,
        ),
        rewrite_of(word, s, ch) is Some ==> 0 <= rewrite_of(word, s, ch)->0.delete_count
            <= word.buffer.len(),
        display.take(display.len() - word.buffer.len()) == display_after(
            display,
            ch,
            rewrite_of(word, s, ch),
        ).take(display.len() - word.buffer.len()),
{
    if is_word_boundary_spec(ch, s.method) {
        let shown = display.push(ch);
        assert(shown.skip(shown.len() - 0) =~= Seq::<char>::empty());
        assert(display.take(display.len() - word.buffer.len()) =~= shown.take(
            display.len() - word.buffer.len(),
        ));
    } else {
        lemma_key_sound(word, s.method, s.auto_fix, s.relaxed, ch);
        lemma_rewrite_on_longer_display(display, word.buffer, ch, rewrite_of(word, s, ch));
    }
}

/// For every stream of keys: the display that results from carrying out
/// what the engine returned, key by key, ends with the word in progress,
/// and no action deleted more than the display held.
pub proof fn lemma_display_follows_keys(
    word: WordModel,
    s: Settings,
    display: Seq<char>,
    keys: Seq<char>,
)
    requires
        ends_with(display, word.buffer),
    ensures
        ends_with(
            display_after_keys(word, s, display, keys),
            word_after_keys(word, s, keys).buffer,
        ),
        deletes_fit(word, s, display, keys),
    decreases keys.len(),
{
    if keys.len() > 0 {
        lemma_display_follows_keys(word, s, display, keys.drop_last());
        lemma_display_follows_key(
            word_after_keys(word, s, keys.drop_last()),
            s,
            display_after_keys(word, s, display, keys.drop_last()),
            keys.last(),
        );
    }
}

/// The word in progress never holds a character that ends a word: what
/// is clean before a key is clean after it.
pub proof fn lemma_word_stays_clean(word: WordModel, s: Settings, ch: char)
    requires
        is_clean(word.buffer, s.method),
    ensures
        is_clean(word_after(word, s, ch).buffer, s.method),
{
    if !is_word_boundary_spec(ch, s.method) {
        lemma_key_sound(word, s.method, s.auto_fix, s.relaxed, ch);
    }
}

/// Where the tone goes in a word depends on nothing but the vowels of its
/// cluster, without their tones and case, and on whether anything follows
/// the cluster: two words that agree in these carry the tone on the same
/// vowel of the cluster.
pub proof fn lemma_tone_target_depends_on_cluster_only(w1: Seq<char>, w2: Seq<char>)
    requires
        cluster_of(w1).len() == cluster_of(w2).len(),
        forall|i: int|
            0 <= i < cluster_of(w1).len() ==> base_lower_spec(cluster_of(w1)[i]) == base_lower_spec(
                cluster_of(w2)[i],
            ),
        (cluster_end(w1) < w1.len()) == (cluster_end(w2) < w2.len()),
    ensures
        tone_target(w1) - cluster_start(w1) == tone_target(w2) - cluster_start(w2),
{
    lemma_tone_offset_depends_on_cluster_only(
        cluster_of(w1),
        cluster_of(w2),
        cluster_end(w1) < w1.len(),
    );
}

/// Foreign mode lasts to the end of the word: in it, a key that is no
/// boundary is a letter, returns nothing, and leaves the word in it.
pub proof fn lemma_foreign_mode_lasts(word: WordModel, s: Settings, ch: char)
    requires
        word.foreign_mode,
        !is_word_boundary_spec(ch, s.method),
    ensures
        word_after(word, s, ch) == pushed(word, ch),
        word_after(word, s, ch).foreign_mode,
        rewrite_of(word, s, ch) is None,
{
    reveal(key_spec);
}

/// A word is in foreign mode or forms a syllable.
pub open spec fn word_ok(word: WordModel, s: Settings) -> bool {
    word.foreign_mode || syllable_ok(word.buffer, s.relaxed)
}

/// After every key the word in progress is in foreign mode or forms a
/// syllable, whatever it was before.
pub proof fn lemma_word_ok_after_key(word: WordModel, s: Settings, ch: char)
    ensures
        word_ok(word_after(word, s, ch), s),
{
    reveal(key_spec);
    crate::syllable::lemma_empty_word_ok(Seq::<char>::empty(), s.relaxed);
}

/// For every stream of keys typed into an empty word: the word in
/// progress is in foreign mode or forms a syllable. So a word that a
/// boundary closes outside foreign mode is a syllable, and a legal one
/// where tones are not placed freely.
pub proof fn lemma_word_ok_after_keys(s: Settings, keys: Seq<char>)
    ensures
        word_ok(word_after_keys(empty_word(), s, keys), s),
    decreases keys.len(),
{
    if keys.len() == 0 {
        crate::syllable::lemma_empty_word_ok(Seq::<char>::empty(), s.relaxed);
    } else {
        lemma_word_ok_after_keys(s, keys.drop_last());
        lemma_word_ok_after_key(word_after_keys(empty_word(), s, keys.drop_last()), s, keys.last());
    }
}

/// For every stream of keys typed into an empty word under one method:
/// the word in progress holds no character that ends a word.
pub proof fn lemma_word_clean_after_keys(s: Settings, keys: Seq<char>)
    ensures
        is_clean(word_after_keys(empty_word(), s, keys).buffer, s.method),
    decreases keys.len(),
{
    if keys.len() > 0 {
        lemma_word_clean_after_keys(s, keys.drop_last());
        lemma_word_stays_clean(word_after_keys(empty_word(), s, keys.drop_last()), s, keys.last());
    }
}

/// A word that a boundary closes outside foreign mode forms a syllable:
/// a legal one where tones are not placed freely.
pub proof fn lemma_closed_word_forms_syllable(e: VitypeEngine, ch: char)
    requires
        e.word_wf(),
        !e.foreign_mode,
        e.buffer@.len() > 0,
    ensures
        syllable_ok(e.buffer@, e.free_tone_placement),
        !e.free_tone_placement ==> syllable_ok(e.buffer@, false),
        closed_word(&e) is Word,
        closed_word(&e)->Word_0.chars == e.buffer,
        !closed_word(&e)->Word_0.was_foreign,
        commit_spec(&e, ch) == trim_history(
            e.history@.push(closed_word(&e)).push(crate::common::HistorySegment::Boundary(ch)),
        ),
{
}

/// A key that transformed the word is remembered: pressed again, it is
/// taken for a key that may undo the transform. This holds of every word.
pub proof fn lemma_transform_key_is_remembered(word: WordModel, s: Settings, ch: char)
    requires
        !is_word_boundary_spec(ch, s.method),
        !word.foreign_mode,
        rewrite_of(word, s, ch) is Some,
        !word_after(word, s, ch).foreign_mode,
        word_after(word, s, ch).last_transform_key is Some,
    ensures
        is_escape_candidate_spec(word_after(word, s, ch).last_transform_key, ch, s.method),
{
    reveal(key_spec);
    lemma_escape_sound(word, s.method, ch);
    lemma_transformed_key(pushed(word, ch), s, ch);
}

/// Every transform remembers the key that fired it, or nothing.
proof fn lemma_transformed_key(word: WordModel, s: Settings, ch: char)
    ensures
        ({
            let o = transform_spec(word, s.method, ch, s.auto_fix, s.relaxed);
            o is Some && o->0.word.last_transform_key is Some ==> is_escape_candidate_spec(
                o->0.word.last_transform_key,
                ch,
                s.method,
            )
        }),
{
    lemma_w_and_d_case(ch);
    lemma_w_and_d_case('d');
    lemma_w_and_d_case('w');
}

/// The escape law. Take a word that is fresh for a key: without tones for
/// a tone key, without tones and shapes for a shape key, with a `d` as
/// its last letter for the stroke key. Let the key transform the word
/// and leave it a syllable. Pressed again, the key undoes what it did: the
/// word is what it was with the key as one more letter; the host is told
/// so; and the word is in foreign mode with nothing left to undo.
pub proof fn lemma_escape_law(word: WordModel, s: Settings, k: char)
    requires
        !word.foreign_mode,
        is_fresh_for(word.buffer, k, s.method),
        rewrite_of(word, s, k) is Some,
        !word_after(word, s, k).foreign_mode,
    ensures
        word_after(word_after(word, s, k), s, k) == raw_word(word.buffer, k),
        rewrite_of(word_after(word, s, k), s, k) is Some,
{
    reveal(key_spec);
    let with_key = pushed(word, k);
    lemma_fresh_word_escapes_nothing(word, s.method, k);
    lemma_keys_are_plain(k, s.method);
    if classify_spec(k, s.method) is ConsonantStrokeKey {
        lemma_w_and_d_case(k);
        lemma_stroke_then_escape(with_key, 'd');
        lemma_stroke_then_escape(with_key, '9');
    } else {
        assert forall|j: int| 0 <= j < with_key.buffer.len() implies split_spec(
            #[trigger] with_key.buffer[j],
        ).1 is None by {
            if j < word.buffer.len() {
                assert(is_toneless_char(word.buffer[j]) || is_plain_char(word.buffer[j]));
            }
        }
        lemma_no_tone_no_move(with_key.buffer);
    }
    match s.method {
        InputMethod::Telex => {
            lemma_telex_escape_law(word, s.auto_fix, s.relaxed, k);
        },
        InputMethod::Vni => {
            lemma_vni_escape_law(word, s.auto_fix, s.relaxed, k);
        },
    }
}

} // verus!
