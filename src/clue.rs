//! The clue a quiz shows: a card's text, with the card's name masked.
use vstd::prelude::*;
use crate::matcher::chars_of;

verus! {

/// `s` with every match of `from` replaced by `to`: matches are taken from
/// the left and do not overlap; an empty `from` matches before each
/// character and at the end.
pub open spec fn replaced(s: Seq<char>, from: Seq<char>, to: Seq<char>) -> Seq<char>
    decreases s.len(),
{
    if from.len() == 0 {
        if s.len() == 0 {
            to
        } else {
            to + seq![s[0]] + replaced(s.drop_first(), from, to)
        }
    } else if s.len() >= from.len() && s.take(from.len() as int) == from {
        to + replaced(s.skip(from.len() as int), from, to)
    } else if s.len() == 0 {
        Seq::empty()
    } else {
        seq![s[0]] + replaced(s.drop_first(), from, to)
    }
}

/// Characters with the Unicode `White_Space` property.
pub open spec fn is_white_space(c: char) -> bool {
    let v = c as u32;
    (0x9 <= v && v <= 0xD) || v == 0x20 || v == 0x85 || v == 0xA0 || v == 0x1680 || (0x2000 <= v
        && v <= 0x200A) || v == 0x2028 || v == 0x2029 || v == 0x202F || v == 0x205F || v == 0x3000
}

/// `s` without its leading white space.
pub open spec fn trimmed_start(s: Seq<char>) -> Seq<char>
    decreases s.len(),
{
    if s.len() > 0 && is_white_space(s[0]) {
        trimmed_start(s.drop_first())
    } else {
        s
    }
}

/// `s` without its trailing white space.
pub open spec fn trimmed_end(s: Seq<char>) -> Seq<char>
    decreases s.len(),
{
    if s.len() > 0 && is_white_space(s.last()) {
        trimmed_end(s.drop_last())
    } else {
        s
    }
}

/// `s` without leading and trailing white space.
pub open spec fn trimmed(s: Seq<char>) -> Seq<char> {
    trimmed_end(trimmed_start(s))
}

/// Whether `p` occurs in `s`.
pub open spec fn has_substring(s: Seq<char>, p: Seq<char>) -> bool {
    exists|i: int| 0 <= i <= s.len() - p.len() && #[trigger] s.subrange(i, i + p.len()) == p
}

/// Relies on str::replace: a new string with every match of the pattern, from
/// the left and without overlap, replaced.
#[verifier::external_body]
fn replace_all(s: &str, from: &str, to: &str) -> (r: String)
    ensures
        r@ == replaced(s@, from@, to@),
{
    s.replace(from, to)
}

/// Relies on str::trim: the string without leading and trailing characters
/// of the Unicode `White_Space` property.
#[verifier::external_body]
pub(crate) fn trim(s: &str) -> (r: &str)
    ensures
        r@ == trimmed(s@),
{
    s.trim()
}

/// Relies on str::contains with a `&str` pattern: true when the pattern
/// matches a sub-slice of the string.
#[verifier::external_body]
fn contains(s: &str, p: &str) -> (r: bool)
    ensures
        r == has_substring(s@, p@),
{
    s.contains(p)
}

/// The text that stands for the card's name in a clue.
pub open spec fn mask() -> Seq<char> {
    "<カード名>"@
}

/// The clue text with each occurrence of the card's name masked.
pub fn mask_card_name(text: &str, card_name: &str) -> (r: String)
    ensures
        r@ == replaced(text@, card_name@, mask()),
{
    replace_all(text, card_name, "<カード名>")
}

/// The pieces of `s` between line feeds, as `str::split('\n')` gives them.
pub open spec fn lines_of(s: Seq<char>) -> Seq<Seq<char>>
    decreases s.len(),
{
    if s.len() == 0 {
        seq![Seq::empty()]
    } else {
        let init = lines_of(s.drop_last());
        if s.last() == '\n' {
            init.push(Seq::empty())
        } else {
            init.update(init.len() - 1, init.last().push(s.last()))
        }
    }
}

/// Splits a string at its line feeds.
pub fn split_lines(s: &str) -> (r: Vec<&str>)
    ensures
        r@.len() == lines_of(s@).len(),
        forall|k: int| 0 <= k < r@.len() ==> #[trigger] r@[k]@ == lines_of(s@)[k],
{
    let cs = chars_of(s);
    let n = cs.len();
    let mut r: Vec<&str> = Vec::new();
    let mut start: usize = 0;
    let mut i: usize = 0;
    assert(s@.take(0) =~= Seq::<char>::empty());
    while i < n
        invariant
            cs@ == s@,
            n == cs.len(),
            start <= i <= n,
            lines_of(s@.take(i as int)).len() == r@.len() + 1,
            forall|k: int| 0 <= k < r@.len() ==> #[trigger] r@[k]@ == lines_of(s@.take(i as int))[k],
            lines_of(s@.take(i as int)).last() == s@.subrange(start as int, i as int),
        decreases n - i,
    {
        let ghost before = lines_of(s@.take(i as int));
        assert(s@.take(i + 1).drop_last() =~= s@.take(i as int));
        assert(s@.take(i + 1).last() == cs@[i as int]);
        if cs[i] == '\n' {
            let line = s.substring_char(start, i);
            r.push(line);
            start = i + 1;
            assert(s@.subrange(start as int, i + 1) =~= Seq::<char>::empty());
        } else {
            assert(s@.subrange(start as int, i + 1) =~= s@.subrange(start as int, i as int).push(
                cs@[i as int],
            ));
        }
        i = i + 1;
    }
    assert(s@.take(n as int) =~= s@);
    let last = s.substring_char(start, n);
    r.push(last);
    r
}

/// Whether a line of the card page's text block belongs to the clue: no
/// heading, no closing tag, not blank.
pub open spec fn keeps_line(l: Seq<char>) -> bool {
    &&& !has_substring(l, "<div class=\"text_title\">"@)
    &&& !has_substring(l, "</div>"@)
    &&& trimmed(l).len() > 0
}

/// The kept lines, trimmed.
pub open spec fn clue_lines(ls: Seq<Seq<char>>) -> Seq<Seq<char>>
    decreases ls.len(),
{
    if ls.len() == 0 {
        Seq::empty()
    } else {
        let init = clue_lines(ls.drop_last());
        if keeps_line(ls.last()) {
            init.push(trimmed(ls.last()))
        } else {
            init
        }
    }
}

/// Lines joined with line feeds between them.
pub open spec fn joined(ls: Seq<Seq<char>>) -> Seq<char>
    decreases ls.len(),
{
    if ls.len() == 0 {
        Seq::empty()
    } else if ls.len() == 1 {
        ls[0]
    } else {
        joined(ls.drop_last()) + "\n"@ + ls.last()
    }
}

pub open spec fn card_text_of(text_html: Seq<char>, card_name: Seq<char>) -> Seq<char> {
    replaced(
        replaced(joined(clue_lines(lines_of(text_html))), "<br>"@, "\n"@),
        card_name,
        mask(),
    )
}

/// The clue from the inner HTML of a card page's text block: the text lines
/// without headings, closing tags or blank lines, each trimmed, with `<br>`
/// as a line break and the card's name masked.
pub fn clean_card_text(text_html: &str, card_name: &str) -> (r: String)
    ensures
        r@ == card_text_of(text_html@, card_name@),
{
    let lines = split_lines(text_html);
    let ghost ls = lines_of(text_html@);
    let mut out = String::new();
    let mut any: bool = false;
    let mut k: usize = 0;
    assert(ls.take(0) =~= Seq::<Seq<char>>::empty());
    while k < lines.len()
        invariant
            lines@.len() == ls.len(),
            forall|j: int| 0 <= j < lines@.len() ==> #[trigger] lines@[j]@ == ls[j],
            k <= lines.len(),
            any == (clue_lines(ls.take(k as int)).len() > 0),
            out@ == joined(clue_lines(ls.take(k as int))),
        decreases lines.len() - k,
    {
        let line = lines[k];
        assert(ls.take(k + 1).drop_last() =~= ls.take(k as int));
        assert(ls.take(k + 1).last() == line@);
        let title = contains(line, "<div class=\"text_title\">");
        let closing = contains(line, "</div>");
        let t = trim(line);
        let ghost init = clue_lines(ls.take(k as int));
        assert(keeps_line(line@) == (!title && !closing && !t.is_empty()));
        if !title && !closing && !t.is_empty() {
            let ghost prev = out@;
            assert(clue_lines(ls.take(k + 1)) == init.push(t@));
            assert(init.push(t@).drop_last() =~= init);
            if any {
                out.append("\n");
            }
            out.append(t);
            if any {
                assert(out@ =~= prev + "\n"@ + t@);
            } else {
                assert(out@ =~= t@);
            }
            any = true;
        }
        k = k + 1;
    }
    assert(ls.take(lines.len() as int) =~= ls);
    let broken = replace_all(out.as_str(), "<br>", "\n");
    mask_card_name(broken.as_str(), card_name)
}

} // verus!
