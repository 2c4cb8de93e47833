//! What the library reads of JSON texts: the parsed value and single string
//! members, all through `serde_json`.
use vstd::prelude::*;

use crate::text::opt_view;

verus! {

/// A parsed JSON value.
#[verifier::external_type_specification]
#[verifier::external_body]
pub struct ExJsonValue(serde_json::Value);

/// Whether `serde_json::from_str` reads the text as a JSON value.
pub uninterp spec fn json_parses(text: Seq<char>) -> bool;

/// The value `serde_json::from_str` reads from a text that parses.
pub uninterp spec fn json_value(text: Seq<char>) -> serde_json::Value;

/// The error `serde_json::from_str` reports for a text that does not parse.
pub uninterp spec fn json_parse_error(text: Seq<char>) -> serde_json::Error;

/// The string at `value[key]` of the value a text parses to, as
/// `Value::as_str` gives it: `None` where the member is absent or is not a
/// string.
pub uninterp spec fn json_string_member(text: Seq<char>, key: Seq<char>) -> Option<Seq<char>>;

/// The string at `value[key][index][inner]` of the value a text parses to,
/// as `Value::as_str` gives it: `None` where any step is absent or the end
/// is not a string.
pub uninterp spec fn json_nested_string_member(
    text: Seq<char>,
    key: Seq<char>,
    index: usize,
    inner: Seq<char>,
) -> Option<Seq<char>>;

/// A string member of a JSON text: `None` when the text is not JSON,
/// `Some(None)` when the member is absent or not a string.
pub open spec fn string_member_of(text: Seq<char>, key: Seq<char>) -> Option<Option<Seq<char>>> {
    if json_parses(text) {
        Some(json_string_member(text, key))
    } else {
        None
    }
}

/// `serde_json::from_str` into a `Value`. The value and the error are
/// named by `json_value` and `json_parse_error`; which texts parse is named
/// by `json_parses`.
#[verifier::external_body]
pub(crate) fn parse_json(text: &str) -> (r: Result<serde_json::Value, serde_json::Error>)
    ensures
        r is Ok <==> json_parses(text@),
        r matches Ok(v) ==> v == json_value(text@),
        r matches Err(e) ==> e == json_parse_error(text@),
{
    serde_json::from_str(text)
}

/// `serde_json::from_str`, then `value[key]` and `Value::as_str`: `None`
/// when the text is not JSON. Indexing an absent member gives `Null`, so no
/// input panics. The string read is named by `json_string_member`.
#[verifier::external_body]
pub(crate) fn read_string_member(text: &str, key: &str) -> (r: Option<Option<String>>)
    ensures
        r is Some <==> json_parses(text@),
        r matches Some(m) ==> opt_view(&m) == json_string_member(text@, key@),
{
    let value: serde_json::Value = serde_json::from_str(text).ok()?;
    Some(value[key].as_str().map(|s| s.to_string()))
}

/// `serde_json::from_str`, then `value[key][index][inner]` and
/// `Value::as_str`: `None` when the text is not JSON. Indexing an absent
/// member or element gives `Null`, so no input panics. The string read is
/// named by `json_nested_string_member`.
#[verifier::external_body]
pub(crate) fn read_nested_string_member(text: &str, key: &str, index: usize, inner: &str) -> (r:
    Option<Option<String>>)
    ensures
        r is Some <==> json_parses(text@),
        r matches Some(m) ==> opt_view(&m) == json_nested_string_member(
            text@,
            key@,
            index,
            inner@,
        ),
{
    let value: serde_json::Value = serde_json::from_str(text).ok()?;
    Some(value[key][index][inner].as_str().map(|s| s.to_string()))
}

} // verus!
