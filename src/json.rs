//! Reading fields out of a card API's JSON answer.
use vstd::prelude::*;

verus! {

/// The error, as text, of parsing `json` as a JSON document with
/// `serde_json::from_str`; `None` when it parses.
pub uninterp spec fn json_parse_error(json: Seq<char>) -> Option<Seq<char>>;

/// The string at JSON pointer `pointer` in the document `json`, as
/// `serde_json::Value::pointer` finds it; `None` when the document does not
/// parse or holds no string there.
pub uninterp spec fn json_str_at(json: Seq<char>, pointer: Seq<char>) -> Option<Seq<char>>;

/// The integer at JSON pointer `pointer` in the document `json`; `None` when
/// the document does not parse or holds no integer there that fits an `i64`.
pub uninterp spec fn json_i64_at(json: Seq<char>, pointer: Seq<char>) -> Option<i64>;

/// Relies on serde_json::from_str: whether a JSON document parses, and its
/// error as text when it does not.
#[verifier::external_body]
pub(crate) fn parse_error(json: &str) -> (r: Option<String>)
    ensures
        r.deep_view() == json_parse_error(json@),
{
    serde_json::from_str::<serde_json::Value>(json).err().map(|e| e.to_string())
}

/// Relies on serde_json::from_str, then serde_json::Value::pointer and
/// Value::as_str: the string at a JSON pointer of a document.
#[verifier::external_body]
pub(crate) fn str_at(json: &str, pointer: &str) -> (r: Option<String>)
    ensures
        r.deep_view() == json_str_at(json@, pointer@),
{
    serde_json::from_str::<serde_json::Value>(json).ok().and_then(
        |v| v.pointer(pointer).and_then(|x| x.as_str()).map(|s| s.to_owned()),
    )
}

/// Relies on serde_json::from_str, then serde_json::Value::pointer and
/// Value::as_i64: the integer at a JSON pointer of a document.
#[verifier::external_body]
pub(crate) fn i64_at(json: &str, pointer: &str) -> (r: Option<i64>)
    ensures
        r == json_i64_at(json@, pointer@),
{
    serde_json::from_str::<serde_json::Value>(json).ok().and_then(
        |v| v.pointer(pointer).and_then(|x| x.as_i64()),
    )
}

} // verus!
