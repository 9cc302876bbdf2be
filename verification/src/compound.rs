use vstd::prelude::*;
use crate::common::{or_outcome, KeyTransformAction, Outcome, WordModel, WTransformKind};
use crate::diacritics::{
    apply_shape_preserving_tone, apply_shape_preserving_tone_spec, base_lower, base_lower_spec,
    escape_shape_preserving_tone, escape_shape_preserving_tone_spec, VowelShape,
};
use crate::engine::{escaped, step_matches, transformed, VitypeEngine};
use crate::letters::is_upper_spec;
use crate::search::{find_last_hit, last_hit, Probe};
use crate::syllable::{is_vowel, is_vowel_spec};
use crate::tone_mark::{min_int, reposition_spec};

verus! {

/// The rules by which the horn key acts on two vowels at once.
#[derive(Clone, Copy, Debug, PartialEq, Eq, Structural)]
pub enum CompoundRule {
    /// `uo` before a final consonant becomes `ươ`.
    UoFinalConsonant,
    /// `uoi` becomes `ươi`.
    Uoi,
    /// `uu` becomes `ưu`.
    Uu,
    /// `uou` becomes `ươu`.
    Uou,
    /// `ou` becomes `ơu`.
    Ou,
    /// `uo` becomes `ươ`.
    Uow,
    /// `ua` becomes `ưa`.
    Uaw,
}

/// The vowel with a horn where it takes one, its tone kept; as it is
/// where it does not.
pub open spec fn horned_spec(ch: char) -> char {
    match apply_shape_preserving_tone_spec(ch, VowelShape::Horn) {
        Some(c) => c,
        None => ch,
    }
}

/// The vowel without its horn, its tone kept; as it is where it has none.
pub open spec fn unhorned_spec(ch: char) -> char {
    match escape_shape_preserving_tone_spec(ch, VowelShape::Horn) {
        Some(c) => c,
        None => ch,
    }
}

/// The vowel without its breve, its tone kept; as it is where it has none.
pub open spec fn unbreved_spec(ch: char) -> char {
    match escape_shape_preserving_tone_spec(ch, VowelShape::Breve) {
        Some(c) => c,
        None => ch,
    }
}

/// The letter before position `i` is a `q`.
pub open spec fn follows_q(w: Seq<char>, i: int) -> bool {
    1 <= i <= w.len() && base_lower_spec(w[i - 1]) == 'q'
}

/// Positions `i` and `i + 1` hold `u` and `o`, with or without horns but
/// not both with one, and the `u` does not belong to a `qu`.
pub open spec fn is_uo_pair(w: Seq<char>, i: int) -> bool {
    &&& 0 <= i && i + 1 < w.len()
    &&& base_lower_spec(w[i]) == 'u' || base_lower_spec(w[i]) == 'ư'
    &&& base_lower_spec(w[i + 1]) == 'o' || base_lower_spec(w[i + 1]) == 'ơ'
    &&& !(base_lower_spec(w[i]) == 'ư' && base_lower_spec(w[i + 1]) == 'ơ')
    &&& !follows_q(w, i)
}

/// How many consonants end the first `n` characters of a word.
pub open spec fn consonants_before(w: Seq<char>, n: int) -> int
    decreases n,
{
    if n <= 0 || n > w.len() || is_vowel_spec(w[n - 1]) {
        0
    } else {
        1 + consonants_before(w, n - 1)
    }
}

/// Where a rule applies in a word: the position of the first vowel that
/// it gives a horn.
pub open spec fn compound_site(w: Seq<char>, rule: CompoundRule) -> Option<int> {
    let n = w.len() as int;
    let k = consonants_before(w, n);
    let applies = match rule {
        CompoundRule::UoFinalConsonant => 1 <= k <= 3 && is_uo_pair(w, n - k - 2),
        CompoundRule::Uoi => n >= 3 && base_lower_spec(w[n - 1]) == 'i' && is_uo_pair(w, n - 3),
        CompoundRule::Uu => n >= 2 && base_lower_spec(w[n - 2]) == 'u' && base_lower_spec(w[n - 1])
            == 'u' && !follows_q(w, n - 2),
        CompoundRule::Uou => n >= 3 && base_lower_spec(w[n - 1]) == 'u' && is_uo_pair(w, n - 3),
        CompoundRule::Ou => n >= 2 && base_lower_spec(w[n - 2]) == 'o' && base_lower_spec(w[n - 1])
            == 'u',
        CompoundRule::Uow => is_uo_pair(w, n - 2),
        CompoundRule::Uaw => n >= 2 && base_lower_spec(w[n - 2]) == 'u' && base_lower_spec(w[n - 1])
            == 'a' && !follows_q(w, n - 2),
    };
    if !applies {
        None
    } else {
        match rule {
            CompoundRule::UoFinalConsonant => Some(n - k - 2),
            CompoundRule::Uoi | CompoundRule::Uou => Some(n - 3),
            _ => Some(n - 2),
        }
    }
}

/// Whether a rule gives the vowel after the first a horn too.
pub open spec fn rule_horns_pair(rule: CompoundRule) -> bool {
    rule == CompoundRule::UoFinalConsonant || rule == CompoundRule::Uoi || rule
        == CompoundRule::Uou || rule == CompoundRule::Uow
}

/// What the engine remembers of a rule, so that the key pressed again
/// undoes it.
pub open spec fn rule_kind(rule: CompoundRule) -> WTransformKind {
    match rule {
        CompoundRule::UoFinalConsonant => WTransformKind::CompoundUoFinalConsonantW,
        CompoundRule::Uoi => WTransformKind::CompoundUoiw,
        CompoundRule::Uou | CompoundRule::Uow => WTransformKind::CompoundUow,
        CompoundRule::Uaw => WTransformKind::CompoundUaw,
        CompoundRule::Uu | CompoundRule::Ou => WTransformKind::Unset,
    }
}

/// The word with a horn at `i`, and at `i + 1` too where `pair` is set.
pub open spec fn horn_at(w: Seq<char>, i: int, pair: bool) -> Seq<char> {
    let first = w.update(i, horned_spec(w[i]));
    if pair {
        first.update(i + 1, horned_spec(w[i + 1]))
    } else {
        first
    }
}

/// What a shape change at `i` comes to: with `auto_fix` the tone moves to
/// the vowel that should now carry it, and the display is rewritten from
/// the first position that changed.
pub open spec fn finish_shape_spec(
    word: WordModel,
    display_len: int,
    buffer: Seq<char>,
    key: char,
    kind: WTransformKind,
    i: int,
    auto_fix: bool,
) -> Outcome {
    let moved = if auto_fix {
        reposition_spec(buffer)
    } else {
        None
    };
    match moved {
        Some((b, s)) => transformed(word, display_len, b, key, kind, min_int(s, i)),
        None => transformed(word, display_len, buffer, key, kind, i),
    }
}

/// One compound rule on a word whose last character is the horn key.
pub open spec fn compound_rule_spec(
    word: WordModel,
    rule: CompoundRule,
    trigger: char,
    auto_fix: bool,
) -> Option<Outcome> {
    let n = word.buffer.len() - 1;
    let w = word.buffer.take(n);
    if word.buffer.len() == 0 {
        None
    } else {
        match compound_site(w, rule) {
            Some(i) => Some(
                finish_shape_spec(
                    word,
                    n,
                    horn_at(w, i, rule_horns_pair(rule)),
                    trigger,
                    rule_kind(rule),
                    i,
                    auto_fix,
                ),
            ),
            None => None,
        }
    }
}

/// The horn key after `u` and `ă`: the breve goes, the key stays as a
/// letter, and the rest of the word is literal.
pub open spec fn ua_escape_spec(word: WordModel) -> Option<Outcome> {
    let n = word.buffer.len() - 1;
    let w = word.buffer;
    if n >= 2 && base_lower_spec(w[n - 2]) == 'u' && base_lower_spec(w[n - 1]) == 'ă' {
        Some(escaped(n, w.update(n - 1, unbreved_spec(w[n - 1])), n - 1))
    } else {
        None
    }
}

/// What the horn key does to two vowels at once, on a word whose last
/// character is the key: the first rule that applies, in this order.
pub open spec fn compound_chain_spec(word: WordModel, trigger: char, auto_fix: bool) -> Option<
    Outcome,
> {
    or_outcome(
        ua_escape_spec(word),
        or_outcome(
            compound_rule_spec(word, CompoundRule::UoFinalConsonant, trigger, auto_fix),
            or_outcome(
                compound_rule_spec(word, CompoundRule::Uoi, trigger, auto_fix),
                or_outcome(
                    compound_rule_spec(word, CompoundRule::Uu, trigger, auto_fix),
                    or_outcome(
                        compound_rule_spec(word, CompoundRule::Uou, trigger, auto_fix),
                        or_outcome(
                            compound_rule_spec(word, CompoundRule::Ou, trigger, auto_fix),
                            or_outcome(
                                compound_rule_spec(word, CompoundRule::Uow, trigger, auto_fix),
                                compound_rule_spec(word, CompoundRule::Uaw, trigger, auto_fix),
                            ),
                        ),
                    ),
                ),
            ),
        ),
    )
}

/// The horn key pressed again after a compound rule: the last `ươ`, or
/// the last `ưa` after the rule for `ua`, loses its horns, and the key
/// follows as a letter.
pub open spec fn escape_compound_spec(word: WordModel, ch: char) -> Option<Outcome> {
    let w = word.buffer;
    let n = w.len() as int;
    match word.last_w_transform_kind {
        WTransformKind::CompoundUow
        | WTransformKind::CompoundUoiw
        | WTransformKind::CompoundUoFinalConsonantW => match last_hit(
            w,
            n,
            0,
            Probe::HornPair('ơ'),
        ) {
            Some(i) => Some(
                escaped(
                    n,
                    w.update(i, unhorned_spec(w[i])).update(i + 1, unhorned_spec(w[i + 1])).push(ch),
                    i,
                ),
            ),
            None => None,
        },
        WTransformKind::CompoundUaw => match last_hit(w, n, 0, Probe::HornPair('a')) {
            Some(i) => Some(escaped(n, w.update(i, unhorned_spec(w[i])).push(ch), i)),
            None => None,
        },
        _ => None,
    }
}

/// The vowel with a horn where it takes one, its tone kept.
pub fn horned(ch: char) -> (r: char)
    ensures
        r == horned_spec(ch),
        is_upper_spec(r) == is_upper_spec(ch),
{
    match apply_shape_preserving_tone(ch, VowelShape::Horn) {
        Some(c) => c,
        None => ch,
    }
}

/// The vowel without its horn, its tone kept.
pub fn unhorned(ch: char) -> (r: char)
    ensures
        r == unhorned_spec(ch),
        is_upper_spec(r) == is_upper_spec(ch),
{
    match escape_shape_preserving_tone(ch, VowelShape::Horn) {
        Some(c) => c,
        None => ch,
    }
}

/// The vowel without its breve, its tone kept.
pub fn unbreved(ch: char) -> (r: char)
    ensures
        r == unbreved_spec(ch),
        is_upper_spec(r) == is_upper_spec(ch),
{
    match escape_shape_preserving_tone(ch, VowelShape::Breve) {
        Some(c) => c,
        None => ch,
    }
}

/// How many consonants end the word `buf[..n]`.
pub fn count_consonants_before(buf: &Vec<char>, n: usize) -> (r: usize)
    requires
        n <= buf.len(),
    ensures
        r == consonants_before(buf@.take(n as int), n as int),
        r <= n,
{
    let ghost w = buf@.take(n as int);
    let mut k: usize = 0;
    while k < n && !is_vowel(buf[n - k - 1])
        invariant
            k <= n <= buf.len(),
            w == buf@.take(n as int),
            consonants_before(w, n as int) == k + consonants_before(w, n - k),
        decreases n - k,
    {
        k += 1;
    }
    k
}

/// Whether `buf[i]` and `buf[i + 1]` are a `uo` that the horn key takes,
/// in the word `buf[..n]`.
pub fn uo_pair_at(buf: &Vec<char>, n: usize, i: usize) -> (r: bool)
    requires
        n <= buf.len(),
        i + 1 < n,
    ensures
        r == is_uo_pair(buf@.take(n as int), i as int),
{
    let a = base_lower(buf[i]);
    let b = base_lower(buf[i + 1]);
    let after_q = i >= 1 && base_lower(buf[i - 1]) == 'q';
    (a == 'u' || a == 'ư') && (b == 'o' || b == 'ơ') && !(a == 'ư' && b == 'ơ') && !after_q
}

/// Where a rule applies in the word `buf[..n]`.
pub fn find_compound_site(buf: &Vec<char>, n: usize, rule: CompoundRule) -> (r: Option<usize>)
    requires
        n <= buf.len(),
    ensures
        r is Some <==> compound_site(buf@.take(n as int), rule) is Some,
        r is Some ==> r->0 == compound_site(buf@.take(n as int), rule)->0,
        r is Some ==> r->0 + 1 < n,
        r is Some && rule_horns_pair(rule) ==> r->0 + 2 <= n,
{
    let ghost w = buf@.take(n as int);
    match rule {
        CompoundRule::UoFinalConsonant => {
            let k = count_consonants_before(buf, n);
            if 1 <= k && k <= 3 && n >= k + 2 && uo_pair_at(buf, n, n - k - 2) {
                Some(n - k - 2)
            } else {
                None
            }
        },
        CompoundRule::Uoi => {
            if n >= 3 && base_lower(buf[n - 1]) == 'i' && uo_pair_at(buf, n, n - 3) {
                Some(n - 3)
            } else {
                None
            }
        },
        CompoundRule::Uu => {
            if n >= 2 && base_lower(buf[n - 2]) == 'u' && base_lower(buf[n - 1]) == 'u' && !(n >= 3
                && base_lower(buf[n - 3]) == 'q') {
                Some(n - 2)
            } else {
                None
            }
        },
        CompoundRule::Uou => {
            if n >= 3 && base_lower(buf[n - 1]) == 'u' && uo_pair_at(buf, n, n - 3) {
                Some(n - 3)
            } else {
                None
            }
        },
        CompoundRule::Ou => {
            if n >= 2 && base_lower(buf[n - 2]) == 'o' && base_lower(buf[n - 1]) == 'u' {
                Some(n - 2)
            } else {
                None
            }
        },
        CompoundRule::Uow => {
            if n >= 2 && uo_pair_at(buf, n, n - 2) {
                Some(n - 2)
            } else {
                None
            }
        },
        CompoundRule::Uaw => {
            if n >= 2 && base_lower(buf[n - 2]) == 'u' && base_lower(buf[n - 1]) == 'a' && !(n >= 3
                && base_lower(buf[n - 3]) == 'q') {
                Some(n - 2)
            } else {
                None
            }
        },
    }
}

impl VitypeEngine {
    /// Ends a shape change at `i` of a word that no longer holds the key:
    /// remembers the key, moves the tone where the setting asks for it, and
    /// makes the action.
    pub fn finish_shape(&mut self, i: usize, key: char, kind: WTransformKind) -> (r:
        KeyTransformAction)
        requires
            i < old(self).buffer@.len(),
        ensures
            final(self).same_settings(old(self)),
            finish_shape_spec(
                old(self).word(),
                old(self).buffer@.len() as int,
                old(self).buffer@,
                key,
                kind,
                i as int,
                old(self).auto_fix_tone,
            ) == (Outcome { word: final(self).word(), rewrite: r@ }),
    {
        let n = self.buffer.len();
        self.last_transform_key = Some(key);
        self.last_w_transform_kind = kind;
        if self.auto_fix_tone {
            match self.reposition_tone_if_needed(false, Some(i)) {
                Some(action) => {
                    return action;
                },
                None => {},
            }
        }
        self.action_from(n, i)
    }

    /// One compound rule, for a horn key typed and now ending the word.
    pub fn try_compound(&mut self, rule: CompoundRule, trigger: char) -> (r: Option<
        KeyTransformAction,
    >)
        ensures
            step_matches(
                old(self),
                final(self),
                r,
                compound_rule_spec(old(self).word(), rule, trigger, old(self).auto_fix_tone),
            ),
    {
        if self.buffer.len() == 0 {
            return None;
        }
        let n = self.buffer.len() - 1;
        let ghost w = self.buffer@.take(n as int);
        assert(w =~= self.buffer@.drop_last());
        match find_compound_site(&self.buffer, n, rule) {
            Some(i) => {
                let pair = match rule {
                    CompoundRule::UoFinalConsonant
                    | CompoundRule::Uoi
                    | CompoundRule::Uou
                    | CompoundRule::Uow => true,
                    _ => false,
                };
                let kind = match rule {
                    CompoundRule::UoFinalConsonant => WTransformKind::CompoundUoFinalConsonantW,
                    CompoundRule::Uoi => WTransformKind::CompoundUoiw,
                    CompoundRule::Uou | CompoundRule::Uow => WTransformKind::CompoundUow,
                    CompoundRule::Uaw => WTransformKind::CompoundUaw,
                    CompoundRule::Uu | CompoundRule::Ou => WTransformKind::Unset,
                };
                let first = horned(self.buffer[i]);
                self.buffer.pop();
                self.buffer[i] = first;
                if pair {
                    let second = horned(self.buffer[i + 1]);
                    self.buffer[i + 1] = second;
                }
                assert(self.buffer@ =~= horn_at(w, i as int, pair));
                Some(self.finish_shape(i, trigger, kind))
            },
            None => None,
        }
    }

    /// The horn key on `uo` before a final consonant: `ươ`.
    pub fn try_compound_uo_final_consonant_transform(&mut self, trigger: char) -> (r: Option<
        KeyTransformAction,
    >)
        ensures
            step_matches(
                old(self),
                final(self),
                r,
                compound_rule_spec(
                    old(self).word(),
                    CompoundRule::UoFinalConsonant,
                    trigger,
                    old(self).auto_fix_tone,
                ),
            ),
    {
        self.try_compound(CompoundRule::UoFinalConsonant, trigger)
    }

    /// The horn key on `uoi`: `ươi`.
    pub fn try_compound_uoi_transform(&mut self, trigger: char) -> (r: Option<KeyTransformAction>)
        ensures
            step_matches(
                old(self),
                final(self),
                r,
                compound_rule_spec(
                    old(self).word(),
                    CompoundRule::Uoi,
                    trigger,
                    old(self).auto_fix_tone,
                ),
            ),
    {
        self.try_compound(CompoundRule::Uoi, trigger)
    }

    /// The horn key on `uu`: `ưu`.
    pub fn try_compound_uu_transform(&mut self, trigger: char) -> (r: Option<KeyTransformAction>)
        ensures
            step_matches(
                old(self),
                final(self),
                r,
                compound_rule_spec(
                    old(self).word(),
                    CompoundRule::Uu,
                    trigger,
                    old(self).auto_fix_tone,
                ),
            ),
    {
        self.try_compound(CompoundRule::Uu, trigger)
    }

    /// The horn key on `uou`: `ươu`.
    pub fn try_compound_uou_transform(&mut self, trigger: char) -> (r: Option<KeyTransformAction>)
        ensures
            step_matches(
                old(self),
                final(self),
                r,
                compound_rule_spec(
                    old(self).word(),
                    CompoundRule::Uou,
                    trigger,
                    old(self).auto_fix_tone,
                ),
            ),
    {
        self.try_compound(CompoundRule::Uou, trigger)
    }

    /// The horn key on `ou`: `ơu`.
    pub fn try_compound_ou_transform(&mut self, trigger: char) -> (r: Option<KeyTransformAction>)
        ensures
            step_matches(
                old(self),
                final(self),
                r,
                compound_rule_spec(
                    old(self).word(),
                    CompoundRule::Ou,
                    trigger,
                    old(self).auto_fix_tone,
                ),
            ),
    {
        self.try_compound(CompoundRule::Ou, trigger)
    }

    /// The horn key on `uo`: `ươ`.
    pub fn try_compound_uow_transform(&mut self, trigger: char) -> (r: Option<KeyTransformAction>)
        ensures
            step_matches(
                old(self),
                final(self),
                r,
                compound_rule_spec(
                    old(self).word(),
                    CompoundRule::Uow,
                    trigger,
                    old(self).auto_fix_tone,
                ),
            ),
    {
        self.try_compound(CompoundRule::Uow, trigger)
    }

    /// The horn key on `ua`: `ưa`.
    pub fn try_compound_uaw_transform(&mut self, trigger: char) -> (r: Option<KeyTransformAction>)
        ensures
            step_matches(
                old(self),
                final(self),
                r,
                compound_rule_spec(
                    old(self).word(),
                    CompoundRule::Uaw,
                    trigger,
                    old(self).auto_fix_tone,
                ),
            ),
    {
        self.try_compound(CompoundRule::Uaw, trigger)
    }

    /// The horn key, typed and now ending the word, through the compound
    /// rules in their order.
    pub fn try_compound_chain(&mut self, trigger: char) -> (r: Option<KeyTransformAction>)
        ensures
            step_matches(
                old(self),
                final(self),
                r,
                compound_chain_spec(old(self).word(), trigger, old(self).auto_fix_tone),
            ),
    {
        let r = self.try_compound_ua_escape(trigger);
        if r.is_some() {
            return r;
        }
        let r = self.try_compound_uo_final_consonant_transform(trigger);
        if r.is_some() {
            return r;
        }
        let r = self.try_compound_uoi_transform(trigger);
        if r.is_some() {
            return r;
        }
        let r = self.try_compound_uu_transform(trigger);
        if r.is_some() {
            return r;
        }
        let r = self.try_compound_uou_transform(trigger);
        if r.is_some() {
            return r;
        }
        let r = self.try_compound_ou_transform(trigger);
        if r.is_some() {
            return r;
        }
        let r = self.try_compound_uow_transform(trigger);
        if r.is_some() {
            return r;
        }
        self.try_compound_uaw_transform(trigger)
    }

    /// The horn key, typed and now ending the word, after `u` and `ă`.
    pub fn try_compound_ua_escape(&mut self, trigger: char) -> (r: Option<KeyTransformAction>)
        ensures
            step_matches(old(self), final(self), r, ua_escape_spec(old(self).word())),
    {
        if self.buffer.len() < 3 {
            return None;
        }
        let n = self.buffer.len() - 1;
        let ghost full = self.buffer@;
        if base_lower(self.buffer[n - 2]) == 'u' && base_lower(self.buffer[n - 1]) == 'ă' {
            let plain = unbreved(self.buffer[n - 1]);
            self.buffer[n - 1] = plain;
            self.clear_last_transform_and_suppress(trigger);
            assert(self.buffer@ =~= full.update(n - 1, plain));
            Some(self.action_from(n, n - 1))
        } else {
            None
        }
    }

    /// The horn key pressed again after a compound rule.
    pub fn try_escape_compound_horn_key(&mut self, ch: char, ch_lower: char) -> (r: Option<
        KeyTransformAction,
    >)
        ensures
            step_matches(old(self), final(self), r, escape_compound_spec(old(self).word(), ch)),
    {
        let n = self.buffer.len();
        let ghost w = self.buffer@;
        let second = match self.last_w_transform_kind {
            WTransformKind::CompoundUow
            | WTransformKind::CompoundUoiw
            | WTransformKind::CompoundUoFinalConsonantW => 'ơ',
            WTransformKind::CompoundUaw => 'a',
            _ => { return None; },
        };
        match find_last_hit(&self.buffer, n, 0, Probe::HornPair(second)) {
            Some(i) => {
                let first = unhorned(self.buffer[i]);
                self.buffer[i] = first;
                if second == 'ơ' {
                    let plain = unhorned(self.buffer[i + 1]);
                    self.buffer[i + 1] = plain;
                }
                self.buffer.push(ch);
                self.clear_last_transform_and_suppress(ch_lower);
                proof {
                    if second == 'ơ' {
                        assert(self.buffer@ =~= w.update(i as int, unhorned_spec(w[i as int])).update(
                            i + 1,
                            unhorned_spec(w[i + 1]),
                        ).push(ch));
                    } else {
                        assert(self.buffer@ =~= w.update(i as int, unhorned_spec(w[i as int])).push(
                            ch,
                        ));
                    }
                }
                Some(self.action_from(n, i))
            },
            None => None,
        }
    }
}

} // verus!
