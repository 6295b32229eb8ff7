use vstd::prelude::*;

verus! {

/// What serde_json reads at field `key` as an unsigned integer, when `text`
/// parses as a JSON object holding one there; `None` when `text` does not
/// parse, the field is absent, or it is not an unsigned integer.
pub uninterp spec fn u64_field_of(text: Seq<char>, key: Seq<char>) -> Option<u64>;

/// What serde_json reads at field `key` as a string, under the same
/// conditions as `u64_field_of`.
pub uninterp spec fn string_field_of(text: Seq<char>, key: Seq<char>) -> Option<Seq<char>>;

/// What serde_json reads at field `key` as an array, each element rendered
/// back to its JSON text, under the same conditions as `u64_field_of`.
pub uninterp spec fn array_field_of(text: Seq<char>, key: Seq<char>) -> Option<Seq<Seq<char>>>;

/// Relies on serde_json::from_str::<Value> and Value::{get, as_u64}: parse
/// `text` and read field `key` as an unsigned integer. The result depends
/// on the two arguments alone.
#[verifier::external_body]
pub(crate) fn json_u64_field(text: &str, key: &str) -> (r: Option<u64>)
    ensures
        r == u64_field_of(text@, key@),
{
    match serde_json::from_str::<serde_json::Value>(text) {
        Ok(v) => match v.get(key) {
            Some(f) => f.as_u64(),
            None => None,
        },
        Err(_) => None,
    }
}

/// Relies on serde_json::from_str::<Value> and Value::{get, as_str}: parse
/// `text` and read field `key` as a string. The result depends on the two
/// arguments alone.
#[verifier::external_body]
pub(crate) fn json_string_field(text: &str, key: &str) -> (r: Option<String>)
    ensures
        r matches Some(s) ==> string_field_of(text@, key@) == Some(s@),
        r is None ==> string_field_of(text@, key@) is None,
{
    match serde_json::from_str::<serde_json::Value>(text) {
        Ok(v) => match v.get(key) {
            Some(serde_json::Value::String(s)) => Some(s.clone()),
            _ => None,
        },
        Err(_) => None,
    }
}

/// Relies on serde_json::from_str::<Value>, Value::get and Value's Display:
/// parse `text`, read field `key` as an array, and render each element back
/// to its (compact) JSON text. The result depends on the two arguments
/// alone.
#[verifier::external_body]
pub(crate) fn json_array_field(text: &str, key: &str) -> (r: Option<Vec<String>>)
    ensures
        r matches Some(v) ==> array_field_of(text@, key@) == Some(v.deep_view()),
        r is None ==> array_field_of(text@, key@) is None,
{
    match serde_json::from_str::<serde_json::Value>(text) {
        Ok(v) => match v.get(key) {
            Some(serde_json::Value::Array(items)) => Some(
                items.iter().map(|item| item.to_string()).collect(),
            ),
            _ => None,
        },
        Err(_) => None,
    }
}

} // verus!
