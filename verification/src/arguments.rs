//! The arguments of a tool call. They arrive as JSON text written by the
//! remote model and are read here, through `serde_json`, before anything
//! is done with them.

use vstd::prelude::*;
use vstd::string::*;

verus! {

/// A JSON document in memory, as `serde_json` holds it.
#[verifier::external_type_specification]
#[verifier::external_body]
pub struct ExValue(serde_json::Value);

/// The error of `serde_json`.
#[verifier::external_type_specification]
#[verifier::external_body]
pub struct ExError(serde_json::Error);

/// What `serde_json::from_str` makes of `text`: the document, or `None`
/// where it reports an error.
pub uninterp spec fn parsed_json(text: Seq<char>) -> Option<serde_json::Value>;

/// What `Value::get` finds in `value` under the string `key`: the member
/// of that name if `value` is an object that has one, else `None`.
pub uninterp spec fn json_member(value: serde_json::Value, key: Seq<char>) -> Option<
    serde_json::Value,
>;

/// What `Value::as_str` yields for `value`: its text if `value` is a
/// string, else `None`.
pub uninterp spec fn json_string(value: serde_json::Value) -> Option<Seq<char>>;

/// Calls `serde_json::from_str` at the type `Value`. Not proved, but
/// taken from `serde_json`: whether the call succeeds, and the document it
/// yields, depend on the text alone. `parsed_json` names that outcome;
/// nothing more is claimed of it.
#[verifier::external_body]
fn parse_json(text: &str) -> (parsed: Result<serde_json::Value, serde_json::Error>)
    ensures
        match parsed {
            Ok(value) => parsed_json(text@) == Some(value),
            Err(_) => parsed_json(text@) is None,
        },
{
    serde_json::from_str::<serde_json::Value>(text)
}

/// Calls `Value::get` with a string as index. Not proved, but taken from
/// `serde_json`: what the call finds depends on the document and the key
/// alone. `json_member` names that outcome; nothing more is claimed of it.
#[verifier::external_body]
fn member<'a>(value: &'a serde_json::Value, key: &str) -> (found: Option<&'a serde_json::Value>)
    ensures
        match found {
            Some(inner) => json_member(*value, key@) == Some(*inner),
            None => json_member(*value, key@) is None,
        },
{
    value.get(key)
}

/// Calls `Value::as_str`. Not proved, but taken from `serde_json`: what the
/// call yields depends on the document alone. `json_string` names that
/// outcome; nothing more is claimed of it.
#[verifier::external_body]
fn string_value<'a>(value: &'a serde_json::Value) -> (text: Option<&'a str>)
    ensures
        match text {
            Some(text) => json_string(*value) == Some(text@),
            None => json_string(*value) is None,
        },
{
    value.as_str()
}

/// The query that the arguments of a search call ask for: the string under
/// `query` of the JSON object that `arguments` is. There is none if
/// `arguments` is not JSON, not an object, has no such member, or holds
/// something other than a string there.
pub open spec fn search_query_of(arguments: Seq<char>) -> Option<Seq<char>> {
    match parsed_json(arguments) {
        Some(document) => match json_member(document, "query"@) {
            Some(inner) => json_string(inner),
            None => None,
        },
        None => None,
    }
}

/// The arguments of the knowledge search.
#[derive(Debug, PartialEq, Eq)]
pub struct SearchKnowledgeBaseArguments {
    pub query: String,
}

/// Reads the arguments of a search call.
pub fn parse_search_arguments(arguments: &str) -> (parsed: Option<SearchKnowledgeBaseArguments>)
    ensures
        match parsed {
            Some(read) => search_query_of(arguments@) == Some(read.query@),
            None => search_query_of(arguments@) is None,
        },
{
    match parse_json(arguments) {
        Ok(document) => match member(&document, "query") {
            Some(inner) => match string_value(inner) {
                Some(query) => Some(SearchKnowledgeBaseArguments { query: query.to_owned() }),
                None => None,
            },
            None => None,
        },
        Err(_) => None,
    }
}

} // verus!
