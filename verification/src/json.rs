//! Reading JSON text with `serde_json`: the fields of tool arguments, the
//! text of a streamed reply, the normal form of function arguments, the
//! keys of a `package.json` section, a search service's results, and the
//! parts of a completion or chat reply.
//! What the parser finds is named, not described; unless a reader says
//! otherwise, text that is not JSON reads as `null`, with every field missing.
use vstd::prelude::*;
use crate::ai::opt_view;
use crate::testgen::string_views;

verus! {

/// The string at `key` of the JSON object `text`, if there is one.
pub uninterp spec fn json_str(text: Seq<char>, key: Seq<char>) -> Option<Seq<char>>;

/// The unsigned integer at `key` of the JSON object `text`, if there is one.
pub uninterp spec fn json_u64(text: Seq<char>, key: Seq<char>) -> Option<u64>;

/// The boolean at `key` of the JSON object `text`, if there is one.
pub uninterp spec fn json_bool(text: Seq<char>, key: Seq<char>) -> Option<bool>;

/// The array at `key` of the JSON object `text`, if there is one: for each
/// item, its string if it is a string.
pub uninterp spec fn json_str_items(text: Seq<char>, key: Seq<char>) -> Option<Seq<Option<Seq<char>>>>;

/// `text` parsed as JSON and written out again (compact), if it parses.
pub uninterp spec fn json_normalized(text: Seq<char>) -> Option<Seq<char>>;

/// `candidates[0].content.parts[0].text` of the JSON text, if a string.
pub uninterp spec fn json_candidate_text(text: Seq<char>) -> Option<Seq<char>>;

/// `message.content` of the JSON text, if a string.
pub uninterp spec fn json_message_content(text: Seq<char>) -> Option<Seq<char>>;

/// `choices[0].delta.content` of the JSON text, if a string.
pub uninterp spec fn json_choice_delta(text: Seq<char>) -> Option<Seq<char>>;

/// The keys of the object at `key` of the JSON text `text`: `None` where
/// the text is not JSON, `Some(None)` where there is no object at `key`.
pub uninterp spec fn json_object_keys(text: Seq<char>, key: Seq<char>) -> Option<Option<Seq<Seq<char>>>>;

/// The `results` array of the JSON text: of each item, the JSON text of
/// its `title`, `url`, and `content` (`null` where one is missing).
pub uninterp spec fn json_result_hits(text: Seq<char>) -> Option<Seq<(Seq<char>, Seq<char>, Seq<char>)>>;

/// The message of `serde_json`'s error where the text is not JSON.
pub uninterp spec fn json_syntax_error(text: Seq<char>) -> Option<Seq<char>>;

/// The string at `choices[0].message.content` of the JSON text.
pub uninterp spec fn json_completion_content(text: Seq<char>) -> Option<Seq<char>>;

/// Whether the JSON text has an `error` key, and then the string at
/// `error.message`, if it is one.
pub uninterp spec fn json_error_message(text: Seq<char>) -> Option<Option<Seq<char>>>;

/// Whether the `choices` array of the JSON text has a first element.
pub uninterp spec fn json_has_first_choice(text: Seq<char>) -> bool;

/// The entries of the object at `key` of the JSON text, in the map's order:
/// each key with its value's string, if the value is one.
pub uninterp spec fn json_str_entries(text: Seq<char>, key: Seq<char>) -> Option<Seq<(Seq<char>, Option<Seq<char>>)>>;

pub open spec fn entries_view(v: Option<Vec<(String, Option<String>)>>) -> Option<Seq<(Seq<char>, Option<Seq<char>>)>> {
    match v {
        Some(es) => Some(es@.map_values(|e: (String, Option<String>)| (e.0@, opt_view(e.1)))),
        None => None,
    }
}

pub open spec fn error_view(v: Option<Option<String>>) -> Option<Option<Seq<char>>> {
    match v {
        Some(m) => Some(opt_view(m)),
        None => None,
    }
}

pub open spec fn keys_view(v: Option<Option<Vec<String>>>) -> Option<Option<Seq<Seq<char>>>> {
    match v {
        Some(Some(k)) => Some(Some(string_views(k@))),
        Some(None) => Some(None),
        None => None,
    }
}

pub open spec fn str_items_view(v: Option<Vec<Option<String>>>) -> Option<Seq<Option<Seq<char>>>> {
    match v {
        Some(items) => Some(items@.map_values(|x: Option<String>| opt_view(x))),
        None => None,
    }
}

/// Trusted: `serde_json::from_str::<Value>` (a failed parse read as
/// `Value::Null`), then `[key]` and `as_str`.
#[verifier::external_body]
pub(crate) fn json_str_field(text: &str, key: &str) -> (r: Option<String>)
    ensures
        opt_view(r) == json_str(text@, key@),
{
    let v: serde_json::Value = serde_json::from_str(text).unwrap_or_default();
    v[key].as_str().map(|s| s.to_string())
}

/// Trusted: `serde_json::from_str::<Value>` (a failed parse read as
/// `Value::Null`), then `[key]` and `as_u64`.
#[verifier::external_body]
pub(crate) fn json_u64_field(text: &str, key: &str) -> (r: Option<u64>)
    ensures
        r == json_u64(text@, key@),
{
    let v: serde_json::Value = serde_json::from_str(text).unwrap_or_default();
    v[key].as_u64()
}

/// Trusted: `serde_json::from_str::<Value>` (a failed parse read as
/// `Value::Null`), then `[key]` and `as_bool`.
#[verifier::external_body]
pub(crate) fn json_bool_field(text: &str, key: &str) -> (r: Option<bool>)
    ensures
        r == json_bool(text@, key@),
{
    let v: serde_json::Value = serde_json::from_str(text).unwrap_or_default();
    v[key].as_bool()
}

/// Trusted: `serde_json::from_str::<Value>` (a failed parse read as
/// `Value::Null`), then `[key]`, `as_array`, and `as_str` of each item.
#[verifier::external_body]
pub(crate) fn json_str_items_field(text: &str, key: &str) -> (r: Option<Vec<Option<String>>>)
    ensures
        str_items_view(r) == json_str_items(text@, key@),
{
    let v: serde_json::Value = serde_json::from_str(text).unwrap_or_default();
    v[key].as_array().map(|a| a.iter().map(|x| x.as_str().map(|s| s.to_string())).collect())
}

/// Trusted: `serde_json::from_str::<Value>`, and on success `get(key)`,
/// `as_object` and the object's keys, in the map's order.
#[verifier::external_body]
pub(crate) fn json_object_keys_at(text: &str, key: &str) -> (r: Option<Option<Vec<String>>>)
    ensures
        keys_view(r) == json_object_keys(text@, key@),
{
    serde_json::from_str::<serde_json::Value>(text).ok().map(|v| v.get(key).and_then(|x| x.as_object()).map(|o| o.keys().cloned().collect()))
}

/// Trusted: `serde_json::from_str::<Value>` (a failed parse read as
/// `Value::Null`), then `["results"]`, `as_array`, and of each item
/// `Value::to_string` of its `["title"]`, `["url"]` and `["content"]`.
#[verifier::external_body]
pub(crate) fn json_result_hits_of(text: &str) -> (r: Option<Vec<(String, String, String)>>)
    ensures
        match r {
            Some(h) => json_result_hits(text@) == Some(crate::tools::hit_views(h@)),
            None => json_result_hits(text@) is None,
        },
{
    let v: serde_json::Value = serde_json::from_str(text).unwrap_or_default();
    v["results"].as_array().map(|a| a.iter().map(|x| (x["title"].to_string(), x["url"].to_string(), x["content"].to_string())).collect())
}

/// Trusted: `serde_json::from_str::<Value>`, and on failure the error's
/// `to_string`.
#[verifier::external_body]
pub(crate) fn json_syntax_error_of(text: &str) -> (r: Option<String>)
    ensures
        opt_view(r) == json_syntax_error(text@),
{
    serde_json::from_str::<serde_json::Value>(text).err().map(|e| e.to_string())
}

/// Trusted: `serde_json::from_str::<Value>` (a failed parse read as
/// `Value::Null`), then `["choices"][0]["message"]["content"]` and `as_str`.
#[verifier::external_body]
pub(crate) fn json_completion_content_field(text: &str) -> (r: Option<String>)
    ensures
        opt_view(r) == json_completion_content(text@),
{
    let v: serde_json::Value = serde_json::from_str(text).unwrap_or_default();
    v["choices"][0]["message"]["content"].as_str().map(|s| s.to_string())
}

/// Trusted: `serde_json::from_str::<Value>` (a failed parse read as
/// `Value::Null`), then `get("error")` and of it `["message"]` and `as_str`.
#[verifier::external_body]
pub(crate) fn json_error_message_field(text: &str) -> (r: Option<Option<String>>)
    ensures
        error_view(r) == json_error_message(text@),
{
    let v: serde_json::Value = serde_json::from_str(text).unwrap_or_default();
    v.get("error").map(|e| e["message"].as_str().map(|s| s.to_string()))
}

/// Trusted: `serde_json::from_str::<Value>` (a failed parse read as
/// `Value::Null`), then `["choices"]` and `get(0)`.
#[verifier::external_body]
pub(crate) fn json_first_choice_present(text: &str) -> (r: bool)
    ensures
        r == json_has_first_choice(text@),
{
    let v: serde_json::Value = serde_json::from_str(text).unwrap_or_default();
    v["choices"].get(0).is_some()
}

/// Trusted: `serde_json::from_str::<Value>` (a failed parse read as
/// `Value::Null`), then `[key]`, `as_object`, and of each entry its key
/// and its value's `as_str`.
#[verifier::external_body]
pub(crate) fn json_str_entries_field(text: &str, key: &str) -> (r: Option<Vec<(String, Option<String>)>>)
    ensures
        entries_view(r) == json_str_entries(text@, key@),
{
    let v: serde_json::Value = serde_json::from_str(text).unwrap_or_default();
    v[key].as_object().map(|o| o.iter().map(|(k, x)| (k.clone(), x.as_str().map(|s| s.to_string()))).collect())
}

/// Trusted: `serde_json::from_str::<Value>`, and on success
/// `Value::to_string`.
#[verifier::external_body]
pub(crate) fn json_normalize(text: &str) -> (r: Option<String>)
    ensures
        opt_view(r) == json_normalized(text@),
{
    serde_json::from_str::<serde_json::Value>(text).ok().map(|v| v.to_string())
}

/// Trusted: `serde_json::from_str::<Value>` (a failed parse read as
/// `Value::Null`), then `["candidates"][0]["content"]["parts"][0]["text"]`
/// and `as_str`.
#[verifier::external_body]
pub(crate) fn json_candidate_text_field(text: &str) -> (r: Option<String>)
    ensures
        opt_view(r) == json_candidate_text(text@),
{
    let v: serde_json::Value = serde_json::from_str(text).unwrap_or_default();
    v["candidates"][0]["content"]["parts"][0]["text"].as_str().map(|s| s.to_string())
}

/// Trusted: `serde_json::from_str::<Value>` (a failed parse read as
/// `Value::Null`), then `["message"]["content"]` and `as_str`.
#[verifier::external_body]
pub(crate) fn json_message_content_field(text: &str) -> (r: Option<String>)
    ensures
        opt_view(r) == json_message_content(text@),
{
    let v: serde_json::Value = serde_json::from_str(text).unwrap_or_default();
    v["message"]["content"].as_str().map(|s| s.to_string())
}

/// Trusted: `serde_json::from_str::<Value>` (a failed parse read as
/// `Value::Null`), then `["choices"][0]["delta"]["content"]` and `as_str`.
#[verifier::external_body]
pub(crate) fn json_choice_delta_field(text: &str) -> (r: Option<String>)
    ensures
        opt_view(r) == json_choice_delta(text@),
{
    let v: serde_json::Value = serde_json::from_str(text).unwrap_or_default();
    v["choices"][0]["delta"]["content"].as_str().map(|s| s.to_string())
}

/// A string field of JSON arguments, or `default` where it is missing.
pub open spec fn str_or(text: Seq<char>, key: Seq<char>, default: Seq<char>) -> Seq<char> {
    match json_str(text, key) {
        Some(s) => s,
        None => default,
    }
}

pub fn str_field_or(text: &str, key: &str, default: &str) -> (r: String)
    ensures
        r@ == str_or(text@, key@, default@),
{
    match json_str_field(text, key) {
        Some(s) => s,
        None => String::from_str(default),
    }
}

} // verus!
