//! The Yu-Gi-Oh! quiz: its commands and its card search.
use vstd::prelude::*;
use crate::command::{CommandOption, OptionKind, is_leaf, option_is};
use crate::json::{i64_at, json_i64_at, json_parse_error, json_str_at, parse_error, str_at};

pub mod db;
pub mod page;

verus! {

/// The `new` subcommand of the Yu-Gi-Oh! group: an optional part of the card
/// name to draw from.
pub open spec fn is_new_subcommand(o: CommandOption) -> bool {
    &&& option_is(o, OptionKind::SubCommand, "new"@, "Start Yu-gi-oh! quiz"@, false)
    &&& o.choices@.len() == 0
    &&& o.options@.len() == 1
    &&& option_is(
        o.options@[0],
        OptionKind::Text,
        "fname"@,
        "If specified, only cards with it in the card name will be asked"@,
        false,
    )
    &&& is_leaf(o.options@[0])
}

/// Fills in the Yu-Gi-Oh! subcommand group: its description and its `new`
/// subcommand.
pub fn create_subcommand(c: CommandOption) -> (r: CommandOption)
    ensures
        r.kind == c.kind,
        r.name == c.name,
        r.required == c.required,
        r.choices == c.choices,
        r.description@ == "Communicate with Yu-gi-oh! quiz bot"@,
        r.options@ == c.options@.push(r.options@.last()),
        is_new_subcommand(r.options@.last()),
{
    let fname = CommandOption::new(
        OptionKind::Text,
        "fname",
        "If specified, only cards with it in the card name will be asked",
    );
    let new = CommandOption::new(OptionKind::SubCommand, "new", "Start Yu-gi-oh! quiz").add_sub_option(
        fname,
    );
    c.description("Communicate with Yu-gi-oh! quiz bot").add_sub_option(new)
}

pub open spec fn param_is(p: (String, String), key: Seq<char>, value: Seq<char>) -> bool {
    p.0@ == key && p.1@ == value
}

/// The query of a card search: one card, in random order, with its
/// database ids; only cards whose name holds `fname`, when it is given.
pub fn search_params(fname: Option<&str>) -> (r: Vec<(String, String)>)
    ensures
        r@.len() == if fname is Some {
            6int
        } else {
            5int
        },
        param_is(r@[0], "num"@, "1"@),
        param_is(r@[1], "offset"@, "0"@),
        param_is(r@[2], "sort"@, "random"@),
        param_is(r@[3], "cachebust"@, ""@),
        param_is(r@[4], "misc"@, "yes"@),
        fname matches Some(f) ==> param_is(r@[5], "fname"@, f@),
{
    let mut params: Vec<(String, String)> = Vec::new();
    params.push(("num".to_owned(), "1".to_owned()));
    params.push(("offset".to_owned(), "0".to_owned()));
    params.push(("sort".to_owned(), "random".to_owned()));
    params.push(("cachebust".to_owned(), "".to_owned()));
    params.push(("misc".to_owned(), "yes".to_owned()));
    if let Some(f) = fname {
        params.push(("fname".to_owned(), f.to_owned()));
    }
    params
}

/// A card drawn from the card search: its id in the official database and
/// the address of its cropped image (empty when there is none).
#[derive(Debug)]
pub struct CardRef {
    pub konami_id: i64,
    pub image_url: String,
}

pub open spec fn api_failure() -> Seq<char> {
    "API 応答の解析失敗"@
}

/// What a card read from the search's fields is: an error exactly when the
/// id is missing; otherwise the id, and the image or nothing.
pub open spec fn card_ref_of(
    r: Result<CardRef, String>,
    konami_id: Option<i64>,
    image_url: Option<Seq<char>>,
) -> bool {
    &&& r is Ok <==> konami_id is Some
    &&& r matches Err(e) ==> e@ == api_failure()
    &&& r matches Ok(c) ==> {
        &&& c.konami_id == konami_id->0
        &&& c.image_url@ == match image_url {
            Some(u) => u,
            None => Seq::empty(),
        }
    }
}

/// The card from the fields of the search's answer; the id is needed.
pub fn card_ref_from(konami_id: Option<i64>, image_url: Option<String>) -> (r: Result<
    CardRef,
    String,
>)
    ensures
        card_ref_of(r, konami_id, image_url.deep_view()),
{
    match konami_id {
        Some(id) => {
            let image_url = match image_url {
                Some(u) => u,
                None => String::new(),
            };
            Ok(CardRef { konami_id: id, image_url })
        },
        None => Err("API 応答の解析失敗".to_owned()),
    }
}

/// Reads the card search's answer: the parser's error when the answer is
/// not JSON, else the first card's id and image.
pub fn card_ref(json: &str) -> (r: Result<CardRef, String>)
    ensures
        json_parse_error(json@) matches Some(e) ==> (r matches Err(m) && m@ == e),
        json_parse_error(json@) is None ==> card_ref_of(
            r,
            json_i64_at(json@, "/data/0/misc_info/0/konami_id"@),
            json_str_at(json@, "/data/0/card_images/0/image_url_cropped"@),
        ),
{
    if let Some(e) = parse_error(json) {
        return Err(e);
    }
    card_ref_from(
        i64_at(json, "/data/0/misc_info/0/konami_id"),
        str_at(json, "/data/0/card_images/0/image_url_cropped"),
    )
}

/// The digit character of a value below ten.
pub open spec fn digit_char(d: int) -> char {
    if d == 0 {
        '0'
    } else if d == 1 {
        '1'
    } else if d == 2 {
        '2'
    } else if d == 3 {
        '3'
    } else if d == 4 {
        '4'
    } else if d == 5 {
        '5'
    } else if d == 6 {
        '6'
    } else if d == 7 {
        '7'
    } else if d == 8 {
        '8'
    } else {
        '9'
    }
}

/// The decimal digits of a natural number, without leading zeros.
pub open spec fn digits(n: nat) -> Seq<char>
    decreases n,
{
    if n < 10 {
        seq![digit_char(n as int)]
    } else {
        digits(n / 10).push(digit_char((n % 10) as int))
    }
}

/// An integer in decimal, with a minus sign when negative.
pub open spec fn decimal(n: int) -> Seq<char> {
    if n < 0 {
        seq!['-'] + digits((-n) as nat)
    } else {
        digits(n as nat)
    }
}

/// Relies on i64's Display (through ToString): the integer in decimal,
/// with a leading `-` when negative.
#[verifier::external_body]
fn decimal_of(n: i64) -> (r: String)
    ensures
        r@ == decimal(n as int),
{
    n.to_string()
}

pub open spec fn card_page_url_of(konami_id: i64) -> Seq<char> {
    "https://www.db.yugioh-card.com/yugiohdb/card_search.action?ope=2&cid="@ + decimal(
        konami_id as int,
    ) + "&request_locale=ja"@
}

/// The card's page in the official database, in Japanese.
pub fn card_page_url(konami_id: i64) -> (r: String)
    ensures
        r@ == card_page_url_of(konami_id),
{
    let mut s = "https://www.db.yugioh-card.com/yugiohdb/card_search.action?ope=2&cid=".to_owned();
    let id = decimal_of(konami_id);
    s.append(id.as_str());
    s.append("&request_locale=ja");
    s
}

/// What a prompt says first of the part of the name asked for.
pub open spec fn name_hint(fname: Option<Seq<char>>) -> Seq<char> {
    match fname {
        Some(f) => "カード名に「"@ + f + "」が含まれている、"@,
        None => Seq::empty(),
    }
}

pub open spec fn new_quiz_prompt_of(fname: Option<Seq<char>>, card_text: Seq<char>) -> Seq<char> {
    name_hint(fname) + "次のカードテキストを持つ遊戯王カードは？(`/quiz ans` で回答)\n\n"@ + card_text
}

/// The question that starts a Yu-Gi-Oh! quiz: the clue, after the part of
/// the name asked for, if any.
pub fn new_quiz_prompt(fname: Option<&str>, card_text: &str) -> (r: String)
    ensures
        r@ == new_quiz_prompt_of(
            match fname {
                Some(f) => Some(f@),
                None => None,
            },
            card_text@,
        ),
{
    let mut s = String::new();
    if let Some(f) = fname {
        s.append("カード名に「");
        s.append(f);
        s.append("」が含まれている、");
    }
    assert(s@ =~= name_hint(
        match fname {
            Some(f) => Some(f@),
            None => None,
        },
    ));
    s.append("次のカードテキストを持つ遊戯王カードは？(`/quiz ans` で回答)\n\n");
    s.append(card_text);
    s
}

} // verus!
