//! Reading the string arguments of a tool call from its JSON text.

use vstd::prelude::*;

verus! {

/// Whether `text` is JSON, as `serde_json` reads it.
pub uninterp spec fn json_parses(text: Seq<char>) -> bool;

/// The string member `key` of the JSON object `text`, if `text` is JSON, is
/// an object, and holds a string under `key`.
pub uninterp spec fn json_string_member(text: Seq<char>, key: Seq<char>) -> Option<Seq<char>>;

/// The array member `key` of the JSON object `text`, each element as its
/// text when it is a string and `None` when it is not; present if `text` is
/// JSON, is an object, and holds an array under `key`.
pub uninterp spec fn json_array_member(text: Seq<char>, key: Seq<char>) -> Option<Seq<Option<Seq<char>>>>;

/// The text of each element of a list that is a string.
pub open spec fn texts_of(items: Seq<Option<String>>) -> Seq<Option<Seq<char>>> {
    items.map_values(|item: Option<String>| match item {
        Some(s) => Some(s@),
        None => None,
    })
}

/// `serde_json::from_str::<Value>` succeeds on `text`.
#[verifier::external_body]
fn parses_as_json(text: &str) -> (r: bool)
    ensures
        r == json_parses(text@),
{
    serde_json::from_str::<serde_json::Value>(text).is_ok()
}

/// `serde_json::from_str::<Value>`, then `Value::get(key)` and
/// `Value::as_str`: the string under `key`. A member is found only in text
/// that parses.
#[verifier::external_body]
pub(crate) fn string_member(text: &str, key: &str) -> (r: Option<String>)
    ensures
        match r {
            Some(s) => json_string_member(text@, key@) == Some(s@),
            None => json_string_member(text@, key@) is None,
        },
        r is Some ==> json_parses(text@),
{
    serde_json::from_str::<serde_json::Value>(text).ok()?.get(key)?.as_str().map(String::from)
}

/// `serde_json::from_str::<Value>`, then `Value::get(key)` and
/// `Value::as_array`, with `Value::as_str` on each element: the array under
/// `key`, element by element.
#[verifier::external_body]
pub(crate) fn array_member(text: &str, key: &str) -> (r: Option<Vec<Option<String>>>)
    ensures
        match r {
            Some(v) => json_array_member(text@, key@) == Some(texts_of(v@)),
            None => json_array_member(text@, key@) is None,
        },
{
    let value = serde_json::from_str::<serde_json::Value>(text).ok()?;
    let items = value.get(key)?.as_array()?;
    Some(items.iter().map(|item| item.as_str().map(String::from)).collect())
}

/// Why a tool's argument could not be read.
#[derive(Debug, Clone, Copy, PartialEq, Eq, Structural)]
pub enum ArgumentError {
    /// The arguments are not JSON.
    InvalidJson,
    /// The arguments hold no string under the key.
    Missing,
}

/// Every tool first reads its call's arguments as JSON; text that is not
/// JSON is refused before the tool does anything.
pub fn check_arguments(arguments: &str) -> (r: Result<(), ArgumentError>)
    ensures
        r is Ok <==> json_parses(arguments@),
        r is Err ==> r == Err::<(), ArgumentError>(ArgumentError::InvalidJson),
{
    if parses_as_json(arguments) {
        Ok(())
    } else {
        Err(ArgumentError::InvalidJson)
    }
}

/// The string argument `key` of a call whose arguments are the JSON text
/// `arguments`.
pub fn string_argument(arguments: &str, key: &str) -> (r: Result<String, ArgumentError>)
    ensures
        !json_parses(arguments@) ==> r == Err::<String, ArgumentError>(ArgumentError::InvalidJson),
        json_parses(arguments@) ==> match json_string_member(arguments@, key@) {
            Some(v) => r matches Ok(s) && s@ == v,
            None => r == Err::<String, ArgumentError>(ArgumentError::Missing),
        },
{
    if !parses_as_json(arguments) {
        return Err(ArgumentError::InvalidJson);
    }
    match string_member(arguments, key) {
        Some(s) => Ok(s),
        None => Err(ArgumentError::Missing),
    }
}

/// The string argument `key`, when present; arguments that are not JSON are refused.
pub fn optional_string_argument(arguments: &str, key: &str) -> (r: Result<
    Option<String>,
    ArgumentError,
>)
    ensures
        !json_parses(arguments@) ==> r == Err::<Option<String>, ArgumentError>(
            ArgumentError::InvalidJson,
        ),
        json_parses(arguments@) ==> match json_string_member(arguments@, key@) {
            Some(v) => r matches Ok(Some(s)) && s@ == v,
            None => r == Ok::<Option<String>, ArgumentError>(None),
        },
{
    match string_argument(arguments, key) {
        Ok(s) => Ok(Some(s)),
        Err(ArgumentError::Missing) => Ok(None),
        Err(ArgumentError::InvalidJson) => Err(ArgumentError::InvalidJson),
    }
}

} // verus!
