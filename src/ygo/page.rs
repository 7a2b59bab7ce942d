//! Reading a card's name, reading and text off its page in the official
//! card database.
use vstd::prelude::*;
use crate::clue::{card_text_of, clean_card_text, trimmed, trim};

verus! {

/// For each element of the HTML document `html` that the CSS selector group
/// `css` matches, in document order, its text nodes; the selector's parse
/// error, as text, when `css` does not parse.
pub uninterp spec fn selected_texts(html: Seq<char>, css: Seq<char>) -> Result<
    Seq<Seq<Seq<char>>>,
    Seq<char>,
>;

/// For each element of the HTML document `html` that the CSS selector group
/// `css` matches, in document order, the HTML inside it; the selector's
/// parse error, as text, when `css` does not parse.
pub uninterp spec fn selected_inner_html(html: Seq<char>, css: Seq<char>) -> Result<
    Seq<Seq<char>>,
    Seq<char>,
>;

/// Relies on scraper::Html::parse_document, scraper::Selector::parse,
/// Html::select and ElementRef::text: the text nodes of each element that
/// matches; the selector's error as text.
#[verifier::external_body]
fn select_texts(html: &str, css: &str) -> (r: Result<Vec<Vec<String>>, String>)
    ensures
        match (r, selected_texts(html@, css@)) {
            (Ok(v), Ok(s)) => v.deep_view() == s,
            (Err(e), Err(s)) => e@ == s,
            _ => false,
        },
{
    let doc = scraper::Html::parse_document(html);
    let selector = scraper::Selector::parse(css).map_err(|e| e.to_string())?;
    Ok(doc.select(&selector).map(|e| e.text().map(|t| t.to_owned()).collect()).collect())
}

/// Relies on scraper::Html::parse_document, scraper::Selector::parse,
/// Html::select and ElementRef::inner_html: the HTML inside each element
/// that matches; the selector's error as text.
#[verifier::external_body]
fn select_inner_html(html: &str, css: &str) -> (r: Result<Vec<String>, String>)
    ensures
        match (r, selected_inner_html(html@, css@)) {
            (Ok(v), Ok(s)) => v.deep_view() == s,
            (Err(e), Err(s)) => e@ == s,
            _ => false,
        },
{
    let doc = scraper::Html::parse_document(html);
    let selector = scraper::Selector::parse(css).map_err(|e| e.to_string())?;
    Ok(doc.select(&selector).map(|e| e.inner_html()).collect())
}

/// What a card page gives a quiz.
#[derive(Debug)]
pub struct CardPage {
    pub card_name: String,
    pub card_name_ruby: String,
    pub card_text: String,
}

/// Strings one after another.
pub open spec fn concatenated(parts: Seq<Seq<char>>) -> Seq<char>
    decreases parts.len(),
{
    if parts.len() == 0 {
        Seq::empty()
    } else {
        concatenated(parts.drop_last()) + parts.last()
    }
}

pub open spec fn parse_failure() -> Seq<char> {
    "遊戯王DBの解析失敗"@
}

/// What a card read from a page's parts is: an error exactly when the name
/// heading is missing or has fewer than three text nodes; otherwise its
/// name and reading, trimmed, and the clue from the text blocks.
pub open spec fn card_page_of(
    r: Result<CardPage, String>,
    name_texts: Seq<Seq<Seq<char>>>,
    text_html: Seq<Seq<char>>,
) -> bool {
    &&& r is Ok <==> (name_texts.len() > 0 && name_texts[0].len() >= 3)
    &&& r matches Err(e) ==> e@ == parse_failure()
    &&& r matches Ok(p) ==> {
        &&& p.card_name@ == trimmed(name_texts[0][2])
        &&& p.card_name_ruby@ == trimmed(name_texts[0][1])
        &&& p.card_text@ == card_text_of(concatenated(text_html), p.card_name@)
    }
}

/// The card from what a page's parts hold: the text nodes of the name
/// heading (its reading second, its name third), and the HTML of the text
/// blocks.
pub fn card_page_from(name_texts: &Vec<Vec<String>>, text_html: &Vec<String>) -> (r: Result<
    CardPage,
    String,
>)
    ensures
        card_page_of(r, name_texts.deep_view(), text_html.deep_view()),
{
    if name_texts.len() == 0 || name_texts[0].len() < 3 {
        return Err("遊戯王DBの解析失敗".to_owned());
    }
    let heading = &name_texts[0];
    assert(name_texts.deep_view()[0] == heading.deep_view());
    assert(heading.deep_view()[2] == heading@[2]@);
    assert(heading.deep_view()[1] == heading@[1]@);
    let card_name = trim(heading[2].as_str()).to_owned();
    let card_name_ruby = trim(heading[1].as_str()).to_owned();
    let mut html = String::new();
    let mut k: usize = 0;
    let ghost parts = text_html.deep_view();
    while k < text_html.len()
        invariant
            k <= text_html.len(),
            parts == text_html.deep_view(),
            html@ == concatenated(parts.take(k as int)),
        decreases text_html.len() - k,
    {
        assert(parts.take(k + 1).drop_last() =~= parts.take(k as int));
        assert(parts[k as int] == text_html@[k as int]@);
        html.append(text_html[k].as_str());
        k = k + 1;
    }
    assert(parts.take(text_html.len() as int) =~= parts);
    let card_text = clean_card_text(html.as_str(), card_name.as_str());
    Ok(CardPage { card_name, card_name_ruby, card_text })
}

/// Reads a card page: a selector's parse error, or the card that the name
/// heading and the text blocks give.
pub fn card_page(html: &str) -> (r: Result<CardPage, String>)
    ensures
        match (
            selected_texts(html@, "#cardname h1"@),
            selected_inner_html(html@, "#CardTextSet:nth-child(2) .item_box_text"@),
        ) {
            (Ok(ns), Ok(hs)) => card_page_of(r, ns, hs),
            (Err(e), _) => r matches Err(m) && m@ == e,
            (Ok(_), Err(e)) => r matches Err(m) && m@ == e,
        },
{
    let name_texts = match select_texts(html, "#cardname h1") {
        Ok(v) => v,
        Err(e) => return Err(e),
    };
    let text_html = match select_inner_html(html, "#CardTextSet:nth-child(2) .item_box_text") {
        Ok(v) => v,
        Err(e) => return Err(e),
    };
    card_page_from(&name_texts, &text_html)
}

} // verus!
