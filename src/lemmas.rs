//! Properties of the matcher, stated over the alignment spec that
//! `name_matches` and `roughly_card_name_equal` are proved against.
use vstd::prelude::*;
use crate::matcher::{
    Category,
    accepts,
    acceptable,
    aligns,
    all_blank,
    category_of,
    code,
    hiragana_code,
    is_hard,
    is_soft,
    other_width_code,
};

verus! {

/// Every reference character accepts itself.
pub proof fn lemma_accepts_itself(t: char)
    ensures
        accepts(t, t),
{
}

/// The reference followed by extra characters matches the reference exactly
/// when the extra characters are all spaces.
pub proof fn lemma_trailing_characters(reference: Seq<char>, extra: Seq<char>)
    ensures
        aligns(reference + extra, reference) == all_blank(extra),
    decreases reference.len(),
{
    let cand = reference + extra;
    if reference.len() == 0 {
        assert(cand =~= extra);
    } else {
        assert(cand[0] == reference[0]);
        lemma_accepts_itself(reference[0]);
        assert(cand.drop_first() =~= reference.drop_first() + extra);
        lemma_trailing_characters(reference.drop_first(), extra);
    }
}

/// A name is always an acceptable answer for itself, whatever the
/// alternate name.
pub proof fn lemma_name_is_acceptable(name: Seq<char>, alternate: Seq<char>)
    ensures
        acceptable(name, name, alternate),
{
    lemma_trailing_characters(name, Seq::empty());
    assert(name + Seq::<char>::empty() =~= name);
}

/// A candidate of the reference's length that puts in each place a
/// character the reference character there accepts matches the reference.
pub proof fn lemma_accepted_in_each_place(candidate: Seq<char>, reference: Seq<char>)
    requires
        candidate.len() == reference.len(),
        forall|k: int| 0 <= k < reference.len() ==> #[trigger] accepts(reference[k], candidate[k]),
    ensures
        aligns(candidate, reference),
    decreases reference.len(),
{
    if reference.len() == 0 {
    } else {
        let c = candidate.drop_first();
        let r = reference.drop_first();
        assert forall|k: int| 0 <= k < r.len() implies #[trigger] accepts(r[k], c[k]) by {
            assert(accepts(reference[k + 1], candidate[k + 1]));
        }
        assert(accepts(reference[0], candidate[0]));
        lemma_accepted_in_each_place(c, r);
    }
}

/// Writing any of the reference's digits in the other width (full-width for
/// half-width, or the reverse) still matches.
pub proof fn lemma_digit_width(candidate: Seq<char>, reference: Seq<char>)
    requires
        candidate.len() == reference.len(),
        forall|k: int|
            0 <= k < reference.len() ==> #[trigger] candidate[k] == reference[k] || ((category_of(
                reference[k],
            ) is FullWidthDigit || category_of(reference[k]) is HalfWidthDigit) && code(
                candidate[k],
            ) == other_width_code(reference[k])),
    ensures
        aligns(candidate, reference),
{
    assert forall|k: int| 0 <= k < reference.len() implies #[trigger] accepts(
        reference[k],
        candidate[k],
    ) by {
        lemma_accepts_itself(reference[k]);
        assert(candidate[k] == reference[k] || code(candidate[k]) == other_width_code(
            reference[k],
        ));
    }
    lemma_accepted_in_each_place(candidate, reference);
}

/// Writing any of the reference's katakana as hiragana, and any of its dashes
/// as the long vowel mark, still matches.
pub proof fn lemma_kana_and_dash(candidate: Seq<char>, reference: Seq<char>)
    requires
        candidate.len() == reference.len(),
        forall|k: int|
            0 <= k < reference.len() ==> #[trigger] candidate[k] == reference[k] || (category_of(
                reference[k],
            ) is Katakana && code(candidate[k]) == hiragana_code(reference[k])) || (category_of(
                reference[k],
            ) is Dash && candidate[k] == 'ー'),
    ensures
        aligns(candidate, reference),
{
    assert forall|k: int| 0 <= k < reference.len() implies #[trigger] accepts(
        reference[k],
        candidate[k],
    ) by {
        lemma_accepts_itself(reference[k]);
        assert(candidate[k] == reference[k] || code(candidate[k]) == hiragana_code(reference[k])
            || candidate[k] == 'ー');
    }
    lemma_accepted_in_each_place(candidate, reference);
}

/// A candidate that agrees with the reference up to a hard reference
/// character, and there holds a character it does not accept, fails.
pub proof fn lemma_hard_mismatch(candidate: Seq<char>, reference: Seq<char>, k: int)
    requires
        0 <= k < reference.len(),
        k < candidate.len(),
        forall|j: int| 0 <= j < k ==> #[trigger] accepts(reference[j], candidate[j]),
        is_hard(reference[k]),
        !accepts(reference[k], candidate[k]),
    ensures
        !aligns(candidate, reference),
    decreases k,
{
    if k > 0 {
        let c = candidate.drop_first();
        let r = reference.drop_first();
        assert forall|j: int| 0 <= j < k - 1 implies #[trigger] accepts(r[j], c[j]) by {
            assert(accepts(reference[j + 1], candidate[j + 1]));
        }
        assert(accepts(reference[0], candidate[0]));
        lemma_hard_mismatch(c, r, k - 1);
    }
}

/// The characters of `s` whose place is marked `true` in `keep`, in order.
pub open spec fn kept_chars(s: Seq<char>, keep: Seq<bool>) -> Seq<char>
    decreases s.len(),
{
    if s.len() == 0 {
        Seq::empty()
    } else if keep[0] {
        seq![s[0]] + kept_chars(s.drop_first(), keep.drop_first())
    } else {
        kept_chars(s.drop_first(), keep.drop_first())
    }
}

/// `cand` is `refr` with some soft characters left out, where a dash is left
/// out only in front of a candidate that holds no long vowel mark.
spec fn omits_soft(cand: Seq<char>, refr: Seq<char>) -> bool
    decreases refr.len(),
{
    if refr.len() == 0 {
        cand.len() == 0
    } else {
        (cand.len() > 0 && cand[0] == refr[0] && omits_soft(cand.drop_first(), refr.drop_first()))
            || (is_soft(refr[0]) && (category_of(refr[0]) is Dash ==> !cand.contains('ー'))
            && omits_soft(cand, refr.drop_first()))
    }
}

proof fn lemma_contains_tail(s: Seq<char>, x: char)
    requires
        s.len() > 0,
        s.drop_first().contains(x),
    ensures
        s.contains(x),
{
    let k = choose|k: int| 0 <= k < s.drop_first().len() && s.drop_first()[k] == x;
    assert(s[k + 1] == x);
}

/// Leaving out one more soft character, the first of the candidate, keeps the
/// relation.
proof fn lemma_omit_first(cand: Seq<char>, refr: Seq<char>)
    requires
        omits_soft(cand, refr),
        cand.len() > 0,
        is_soft(cand[0]),
        category_of(cand[0]) is Dash ==> !cand.contains('ー'),
    ensures
        omits_soft(cand.drop_first(), refr),
    decreases refr.len(),
{
    let c = cand.drop_first();
    if !cand.contains('ー') {
        if c.contains('ー') {
            lemma_contains_tail(cand, 'ー');
        }
    }
    if cand[0] == refr[0] && omits_soft(c, refr.drop_first()) {
    } else {
        lemma_omit_first(cand, refr.drop_first());
    }
}

proof fn lemma_omits_soft_aligns(cand: Seq<char>, refr: Seq<char>)
    requires
        omits_soft(cand, refr),
    ensures
        aligns(cand, refr),
    decreases refr.len(),
{
    if refr.len() > 0 {
        let t = refr[0];
        let r = refr.drop_first();
        if cand.len() > 0 && accepts(t, cand[0]) {
            if cand[0] == t && omits_soft(cand.drop_first(), r) {
            } else {
                if category_of(t) is Dash {
                    assert(cand[0] != 'ー') by {
                        if cand[0] == 'ー' {
                            assert(cand.contains('ー'));
                        }
                    }
                }
                lemma_omit_first(cand, r);
            }
            lemma_omits_soft_aligns(cand.drop_first(), r);
        } else {
            lemma_accepts_itself(t);
            lemma_omits_soft_aligns(cand, r);
        }
    }
}

proof fn lemma_kept_chars_omit(refr: Seq<char>, keep: Seq<bool>, whole: Seq<char>, tail: Seq<char>)
    requires
        keep.len() == refr.len(),
        forall|k: int|
            0 <= k < refr.len() && !keep[k] ==> is_soft(#[trigger] refr[k]) && (category_of(
                refr[k],
            ) is Dash ==> !whole.contains('ー')),
        whole == tail + kept_chars(refr, keep),
    ensures
        omits_soft(kept_chars(refr, keep), refr),
    decreases refr.len(),
{
    let cand = kept_chars(refr, keep);
    if refr.len() > 0 {
        let r = refr.drop_first();
        let kp = keep.drop_first();
        let rest = kept_chars(r, kp);
        assert forall|k: int|
            0 <= k < r.len() && !kp[k] implies is_soft(#[trigger] r[k]) && (category_of(r[k]) is Dash
            ==> !whole.contains('ー')) by {
            assert(refr[k + 1] == r[k]);
        }
        if keep[0] {
            assert(cand.drop_first() =~= rest);
            assert(whole =~= (tail + seq![refr[0]]) + rest);
            lemma_kept_chars_omit(r, kp, whole, tail + seq![refr[0]]);
        } else {
            assert(whole =~= tail + rest);
            lemma_kept_chars_omit(r, kp, whole, tail);
            if category_of(refr[0]) is Dash && cand.contains('ー') {
                let k = choose|k: int| 0 <= k < cand.len() && cand[k] == 'ー';
                assert(whole[tail.len() + k] == 'ー');
            }
        }
    }
}

/// Leaving soft characters of the reference (spaces, dashes, middle dots,
/// periods) out of the candidate still matches; a dash is left out only
/// where the candidate holds no long vowel mark `ー`, which a dash would take
/// in the place of the hard character it stands for.
pub proof fn lemma_soft_omission(reference: Seq<char>, keep: Seq<bool>)
    requires
        keep.len() == reference.len(),
        forall|k: int|
            0 <= k < reference.len() && !keep[k] ==> is_soft(#[trigger] reference[k]) && (
            category_of(reference[k]) is Dash ==> !kept_chars(reference, keep).contains('ー')),
    ensures
        aligns(kept_chars(reference, keep), reference),
{
    let cand = kept_chars(reference, keep);
    assert(cand =~= Seq::<char>::empty() + cand);
    lemma_kept_chars_omit(reference, keep, cand, Seq::empty());
    lemma_omits_soft_aligns(cand, reference);
}

} // verus!
