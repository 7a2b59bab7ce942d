//! The answer matcher: a per-character equivalence classifier, a greedy
//! left-to-right aligner, and a dispatcher over two reference names.
use vstd::prelude::*;

verus! {

/// The class of a reference character, which decides what a candidate may
/// put in its place.
#[derive(PartialEq, Eq, Structural, Clone, Copy, Debug)]
pub enum Category {
    /// `０`..=`９`: the half-width digit of the same value, or itself.
    FullWidthDigit,
    /// `0`..=`9`: the full-width digit of the same value, or itself.
    HalfWidthDigit,
    /// `ァ`..=`ン`: the hiragana of the same sound, or itself.
    Katakana,
    /// ASCII space or ideographic space: either space.
    Whitespace,
    /// Horizontal bar or full-width hyphen: either of them, or the long vowel mark.
    Dash,
    /// Middle dot, full stop, full-width full stop: exactly itself.
    Punctuation,
    /// Anything else: exactly itself.
    Other,
}

/// The Unicode scalar value of a character.
pub open spec fn code(c: char) -> int {
    c as u32 as int
}

pub open spec fn category_of(t: char) -> Category {
    if '０' <= t && t <= '９' {
        Category::FullWidthDigit
    } else if '0' <= t && t <= '9' {
        Category::HalfWidthDigit
    } else if 'ァ' <= t && t <= 'ン' {
        Category::Katakana
    } else if t == ' ' || t == '　' {
        Category::Whitespace
    } else if t == '―' || t == '－' {
        Category::Dash
    } else if t == '・' || t == '.' || t == '．' {
        Category::Punctuation
    } else {
        Category::Other
    }
}

impl Category {
    /// A soft category may be left out of the candidate: a mismatch there
    /// neither fails the match nor consumes a candidate character.
    pub open spec fn soft(self) -> bool {
        self is Whitespace || self is Dash || self is Punctuation
    }

    pub fn is_soft(&self) -> (r: bool)
        ensures
            r == self.soft(),
    {
        match self {
            Category::Whitespace | Category::Dash | Category::Punctuation => true,
            _ => false,
        }
    }
}

pub open spec fn is_soft(t: char) -> bool {
    category_of(t).soft()
}

pub open spec fn is_hard(t: char) -> bool {
    !is_soft(t)
}

/// The two spaces that may trail an answer.
pub open spec fn is_blank(c: char) -> bool {
    c == ' ' || c == '　'
}

pub open spec fn all_blank(s: Seq<char>) -> bool {
    forall|k: int| 0 <= k < s.len() ==> is_blank(#[trigger] s[k])
}

/// The digit of the same value in the other width block, by code point.
pub open spec fn other_width_code(t: char) -> int {
    if category_of(t) is FullWidthDigit {
        code(t) - code('０') + code('0')
    } else {
        code(t) - code('0') + code('０')
    }
}

/// The hiragana at the fixed distance below a katakana, by code point.
pub open spec fn hiragana_code(t: char) -> int {
    code(t) - code('ァ') + code('ぁ')
}

/// Whether candidate character `c` may stand for reference character `t`.
pub open spec fn accepts(t: char, c: char) -> bool {
    match category_of(t) {
        Category::FullWidthDigit | Category::HalfWidthDigit => c == t || code(c)
            == other_width_code(t),
        Category::Katakana => c == t || code(c) == hiragana_code(t),
        Category::Whitespace => is_blank(c),
        Category::Dash => c == '―' || c == '－' || c == 'ー',
        Category::Punctuation | Category::Other => c == t,
    }
}

/// The greedy alignment of a candidate against a reference: each reference
/// character takes the next candidate character when it accepts it; a hard
/// one that cannot fails the match, a soft one is passed over. What is left
/// of the candidate at the end must be blank.
pub open spec fn aligns(cand: Seq<char>, refr: Seq<char>) -> bool
    decreases refr.len(),
{
    if refr.len() == 0 {
        all_blank(cand)
    } else if cand.len() > 0 && accepts(refr[0], cand[0]) {
        aligns(cand.drop_first(), refr.drop_first())
    } else {
        is_soft(refr[0]) && aligns(cand, refr.drop_first())
    }
}

/// An answer is acceptable when it aligns with the name or with the
/// alternate name.
pub open spec fn acceptable(answer: Seq<char>, name: Seq<char>, alternate: Seq<char>) -> bool {
    aligns(answer, name) || aligns(answer, alternate)
}

/// Relies on char::from_u32: `Some` exactly for Unicode scalar values, holding
/// the character of that value.
#[verifier::external_body]
fn char_from_code(v: u32) -> (r: Option<char>)
    ensures
        r is Some <==> (v <= 0x10FFFF && !(0xD800 <= v && v <= 0xDFFF)),
        r is Some ==> r->0 as u32 == v,
{
    char::from_u32(v)
}

pub fn category(t: char) -> (k: Category)
    ensures
        k == category_of(t),
{
    if '０' <= t && t <= '９' {
        Category::FullWidthDigit
    } else if '0' <= t && t <= '9' {
        Category::HalfWidthDigit
    } else if 'ァ' <= t && t <= 'ン' {
        Category::Katakana
    } else if t == ' ' || t == '　' {
        Category::Whitespace
    } else if t == '―' || t == '－' {
        Category::Dash
    } else if t == '・' || t == '.' || t == '．' {
        Category::Punctuation
    } else {
        Category::Other
    }
}

/// The same digit in the other width block; `None` for a non-digit.
pub fn other_width_digit(t: char) -> (r: Option<char>)
    ensures
        r is Some <==> (category_of(t) is FullWidthDigit || category_of(t) is HalfWidthDigit),
        r is Some ==> code(r->0) == other_width_code(t),
{
    let v: u32 = t as u32;
    if '０' <= t && t <= '９' {
        char_from_code(v - ('０' as u32) + ('0' as u32))
    } else if '0' <= t && t <= '9' {
        char_from_code(v - ('0' as u32) + ('０' as u32))
    } else {
        None
    }
}

/// The hiragana of a katakana; `None` for any other character.
pub fn hiragana_of(t: char) -> (r: Option<char>)
    ensures
        r is Some <==> category_of(t) is Katakana,
        r is Some ==> code(r->0) == hiragana_code(t),
{
    if category(t) == Category::Katakana {
        char_from_code((t as u32) - ('ァ' as u32) + ('ぁ' as u32))
    } else {
        None
    }
}

pub fn is_accepted(t: char, c: char) -> (r: bool)
    ensures
        r == accepts(t, c),
{
    match category(t) {
        Category::FullWidthDigit | Category::HalfWidthDigit => {
            if c == t {
                return true;
            }
            match other_width_digit(t) {
                Some(d) => (c as u32) == (d as u32),
                None => false,
            }
        },
        Category::Katakana => {
            if c == t {
                return true;
            }
            match hiragana_of(t) {
                Some(h) => (c as u32) == (h as u32),
                None => false,
            }
        },
        Category::Whitespace => c == ' ' || c == '　',
        Category::Dash => c == '―' || c == '－' || c == 'ー',
        Category::Punctuation | Category::Other => c == t,
    }
}

/// The characters of a string, in order.
pub fn chars_of(s: &str) -> (v: Vec<char>)
    ensures
        v@ == s@,
{
    let mut v: Vec<char> = Vec::new();
    for c in it: s.chars()
        invariant
            v@ == it.seq().take(it.index() as int),
    {
        v.push(c);
    }
    v
}

/// Whether `candidate` is an acceptable rendering of `reference`.
pub fn name_matches(candidate: &str, reference: &str) -> (r: bool)
    ensures
        r == aligns(candidate@, reference@),
{
    let cand = chars_of(candidate);
    let refr = chars_of(reference);
    let mut i: usize = 0;
    let mut j: usize = 0;
    assert(cand@.subrange(0, cand.len() as int) =~= cand@);
    assert(refr@.subrange(0, refr.len() as int) =~= refr@);
    while j < refr.len()
        invariant
            cand@ == candidate@,
            refr@ == reference@,
            i <= cand.len(),
            j <= refr.len(),
            aligns(cand@, refr@) == aligns(
                cand@.subrange(i as int, cand.len() as int),
                refr@.subrange(j as int, refr.len() as int),
            ),
        decreases refr.len() - j,
    {
        let t = refr[j];
        let ghost cs = cand@.subrange(i as int, cand.len() as int);
        let ghost rs = refr@.subrange(j as int, refr.len() as int);
        assert(rs.drop_first() =~= refr@.subrange(j + 1, refr.len() as int));
        assert(rs[0] == t);
        assert(i < cand.len() ==> cs[0] == cand@[i as int]);
        if i < cand.len() && is_accepted(t, cand[i]) {
            assert(cs.drop_first() =~= cand@.subrange(i + 1, cand.len() as int));
            i = i + 1;
        } else if !category(t).is_soft() {
            assert(cs.len() == 0 || !accepts(rs[0], cs[0]));
            assert(!aligns(cs, rs));
            return false;
        }
        j = j + 1;
    }
    let ghost start = i;
    let ghost cs = cand@.subrange(i as int, cand.len() as int);
    assert(aligns(cs, refr@.subrange(j as int, refr.len() as int)) == all_blank(cs));
    while i < cand.len()
        invariant
            cand@ == candidate@,
            refr@ == reference@,
            start <= i <= cand.len(),
            cs == cand@.subrange(start as int, cand.len() as int),
            aligns(cand@, refr@) == all_blank(cs),
            forall|k: int| start <= k < i ==> is_blank(#[trigger] cand@[k]),
        decreases cand.len() - i,
    {
        let c = cand[i];
        if !(c == ' ' || c == '　') {
            assert(!is_blank(cs[i - start]));
            return false;
        }
        i = i + 1;
    }
    assert(all_blank(cs));
    true
}

/// Whether an answer names the card: it matches the card's name, or failing
/// that, its alternate name (a reading or a name in another language).
pub fn roughly_card_name_equal(input_card_name: &str, card_name: &str, card_name_ruby: &str) -> (r:
    bool)
    ensures
        r == acceptable(input_card_name@, card_name@, card_name_ruby@),
{
    name_matches(input_card_name, card_name) || name_matches(input_card_name, card_name_ruby)
}

} // verus!
