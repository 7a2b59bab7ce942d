//! The Magic: the Gathering quiz: its commands and its card search.
use vstd::prelude::*;
use crate::clue::{mask, mask_card_name, replaced};
use crate::command::{CommandOption, OptionKind, choice_is, is_leaf, option_is};
use crate::json::{json_parse_error, json_str_at, parse_error, str_at};

pub mod db;

verus! {

/// The `new` subcommand of the Magic group: a required format to draw from,
/// and an optional flag for rare cards only.
pub open spec fn is_new_subcommand(o: CommandOption) -> bool {
    &&& option_is(o, OptionKind::SubCommand, "new"@, "Start Magic:the Gathering quiz"@, false)
    &&& o.choices@.len() == 0
    &&& o.options@.len() == 2
    &&& option_is(
        o.options@[0],
        OptionKind::Text,
        "format"@,
        "The format (question range)"@,
        true,
    )
    &&& o.options@[0].options@.len() == 0
    &&& o.options@[0].choices@.len() == 4
    &&& choice_is(o.options@[0].choices@[0], "スタンダード"@, "standard"@)
    &&& choice_is(o.options@[0].choices@[1], "パイオニア"@, "pioneer"@)
    &&& choice_is(o.options@[0].choices@[2], "モダン"@, "modern"@)
    &&& choice_is(o.options@[0].choices@[3], "エターナル"@, "eternal"@)
    &&& option_is(
        o.options@[1],
        OptionKind::Boolean,
        "rare"@,
        "If true, only rare cards will be selected"@,
        false,
    )
    &&& is_leaf(o.options@[1])
}

/// Fills in the Magic subcommand group: its description and its `new`
/// subcommand.
pub fn create_subcommand(c: CommandOption) -> (r: CommandOption)
    ensures
        r.kind == c.kind,
        r.name == c.name,
        r.required == c.required,
        r.choices == c.choices,
        r.description@ == "Communicate with Magic:the Gathering! quiz bot"@,
        r.options@ == c.options@.push(r.options@.last()),
        is_new_subcommand(r.options@.last()),
{
    let format = CommandOption::new(
        OptionKind::Text,
        "format",
        "The format (question range)",
    ).add_string_choice("スタンダード", "standard").add_string_choice(
        "パイオニア",
        "pioneer",
    ).add_string_choice("モダン", "modern").add_string_choice("エターナル", "eternal").required(
        true,
    );
    let rare = CommandOption::new(
        OptionKind::Boolean,
        "rare",
        "If true, only rare cards will be selected",
    );
    let new = CommandOption::new(
        OptionKind::SubCommand,
        "new",
        "Start Magic:the Gathering quiz",
    ).add_sub_option(format).add_sub_option(rare);
    c.description("Communicate with Magic:the Gathering! quiz bot").add_sub_option(new)
}

/// The search terms that narrow the draw to a format; none for `eternal` or
/// an unknown format.
pub open spec fn format_terms(format: Seq<char>) -> Seq<char> {
    if format == "standard"@ {
        " f:standard"@
    } else if format == "pioneer"@ {
        " f:pioneer"@
    } else if format == "modern"@ {
        " f:modern"@
    } else {
        Seq::empty()
    }
}

/// The card search for a quiz: Japanese cards, of the format, rare or
/// better when asked.
pub open spec fn search_query_of(format: Seq<char>, rare: bool) -> Seq<char> {
    "lang:japanese"@ + format_terms(format) + if rare {
        " r>=r"@
    } else {
        Seq::empty()
    }
}

pub fn search_query(format: &str, rare: bool) -> (r: String)
    ensures
        r@ == search_query_of(format@, rare),
{
    let mut q = "lang:japanese".to_owned();
    let f = format.to_owned();
    if f == "standard".to_owned() {
        q.append(" f:standard");
    } else if f == "pioneer".to_owned() {
        q.append(" f:pioneer");
    } else if f == "modern".to_owned() {
        q.append(" f:modern");
    }
    let ghost with_format = q@;
    assert(with_format =~= "lang:japanese"@ + format_terms(format@));
    if rare {
        q.append(" r>=r");
    } else {
        assert(q@ =~= with_format + Seq::empty());
    }
    q
}

/// A card drawn from Scryfall, as a quiz needs it.
#[derive(Debug)]
pub struct ScryfallCard {
    /// The Japanese printed name.
    pub card_name: String,
    pub english_name: String,
    /// The printed text, with the printed name masked.
    pub card_text: String,
    pub scryfall_uri: String,
    /// The cropped art; empty when the card has none.
    pub image_uri: String,
}

pub open spec fn api_failure() -> Seq<char> {
    "API応答の解析失敗"@
}

/// What a card read from Scryfall's fields is: an error exactly when one
/// of the needed fields is missing; otherwise the fields, with the printed
/// name masked in the text and the art left empty when there is none.
pub open spec fn scryfall_card_of(
    r: Result<ScryfallCard, String>,
    printed_name: Option<Seq<char>>,
    printed_text: Option<Seq<char>>,
    name: Option<Seq<char>>,
    scryfall_uri: Option<Seq<char>>,
    art_crop: Option<Seq<char>>,
) -> bool {
    &&& r is Ok <==> (printed_name is Some && printed_text is Some && name is Some
        && scryfall_uri is Some)
    &&& r matches Err(e) ==> e@ == api_failure()
    &&& r matches Ok(c) ==> {
        &&& c.card_name@ == printed_name->0
        &&& c.card_text@ == replaced(printed_text->0, printed_name->0, mask())
        &&& c.english_name@ == name->0
        &&& c.scryfall_uri@ == scryfall_uri->0
        &&& c.image_uri@ == match art_crop {
            Some(a) => a,
            None => Seq::empty(),
        }
    }
}

/// The card from the fields of Scryfall's answer; every field but the art
/// is needed.
pub fn scryfall_card_from(
    printed_name: Option<String>,
    printed_text: Option<String>,
    name: Option<String>,
    scryfall_uri: Option<String>,
    art_crop: Option<String>,
) -> (r: Result<ScryfallCard, String>)
    ensures
        scryfall_card_of(
            r,
            printed_name.deep_view(),
            printed_text.deep_view(),
            name.deep_view(),
            scryfall_uri.deep_view(),
            art_crop.deep_view(),
        ),
{
    match (printed_name, printed_text, name, scryfall_uri) {
        (Some(card_name), Some(text), Some(english_name), Some(scryfall_uri)) => {
            let card_text = mask_card_name(text.as_str(), card_name.as_str());
            let image_uri = match art_crop {
                Some(a) => a,
                None => String::new(),
            };
            Ok(ScryfallCard { card_name, english_name, card_text, scryfall_uri, image_uri })
        },
        _ => Err("API応答の解析失敗".to_owned()),
    }
}

/// Reads Scryfall's answer for a random card: the parser's error when the
/// answer is not JSON, else the card its fields give.
pub fn scryfall_card(json: &str) -> (r: Result<ScryfallCard, String>)
    ensures
        json_parse_error(json@) matches Some(e) ==> (r matches Err(m) && m@ == e),
        json_parse_error(json@) is None ==> scryfall_card_of(
            r,
            json_str_at(json@, "/printed_name"@),
            json_str_at(json@, "/printed_text"@),
            json_str_at(json@, "/name"@),
            json_str_at(json@, "/scryfall_uri"@),
            json_str_at(json@, "/image_uris/art_crop"@),
        ),
{
    if let Some(e) = parse_error(json) {
        return Err(e);
    }
    scryfall_card_from(
        str_at(json, "/printed_name"),
        str_at(json, "/printed_text"),
        str_at(json, "/name"),
        str_at(json, "/scryfall_uri"),
        str_at(json, "/image_uris/art_crop"),
    )
}

pub open spec fn new_quiz_prompt_of(card_text: Seq<char>, image_uri: Seq<char>) -> Seq<char> {
    "次のカードテキストを持つ Magic のカードは？(`/quiz ans` で回答)\n\n"@ + card_text + "\n"@
        + image_uri
}

/// The question that starts a Magic quiz: the clue and the card's art.
pub fn new_quiz_prompt(card_text: &str, image_uri: &str) -> (r: String)
    ensures
        r@ == new_quiz_prompt_of(card_text@, image_uri@),
{
    let mut s = "次のカードテキストを持つ Magic のカードは？(`/quiz ans` で回答)\n\n".to_owned();
    s.append(card_text);
    s.append("\n");
    s.append(image_uri);
    s
}

} // verus!
