//! The JSON values that scripts receive and return, and the `serde_json` calls on them.
use vstd::prelude::*;
use crate::str_map::{entries_map, keys_distinct, StrMap};

verus! {

/// A JSON value, as `serde_json` represents it.
#[verifier::external_type_specification]
#[verifier::external_body]
pub struct ExJsonValue(serde_json::Value);

/// JSON values by name: the library's form of `HashMap<String, serde_json::Value>`.
pub type JsonMap = StrMap<serde_json::Value>;

/// What `serde_json::Value::is_null` returns for a value.
pub uninterp spec fn json_is_null(v: serde_json::Value) -> bool;

/// `serde_json::Value::Null`: the value for which `is_null` is true.
#[verifier::external_body]
pub fn json_null() -> (r: serde_json::Value)
    ensures
        json_is_null(r),
{
    serde_json::Value::Null
}

/// `Clone` of `serde_json::Value` (derived): the copy is the same value.
#[verifier::external_body]
pub fn json_clone(v: &serde_json::Value) -> (r: serde_json::Value)
    ensures
        r == *v,
{
    v.clone()
}

/// The object that `serde_json::from_str::<serde_json::Map<String, Value>>` reads from `text`,
/// or `None` where it fails.
pub uninterp spec fn parsed_json_object(text: Seq<char>) -> Option<Map<Seq<char>, serde_json::Value>>;

/// `serde_json::from_str` into a `serde_json::Map<String, Value>`: the members of the JSON
/// object that `text` holds, one per key (a later duplicate key replaces an earlier one), or
/// `None` where `text` is not a JSON object.
#[verifier::external_body]
fn from_str_object(text: &str) -> (r: Option<Vec<(String, serde_json::Value)>>)
    ensures
        match r {
            Some(v) => keys_distinct(v@) && parsed_json_object(text@) == Some(entries_map(v@)),
            None => parsed_json_object(text@) is None,
        },
{
    match serde_json::from_str::<serde_json::Map<String, serde_json::Value>>(text) {
        Ok(m) => Some(m.into_iter().collect()),
        Err(_) => None,
    }
}

/// The members of the JSON object that `text` holds, or `None` where it holds none.
pub fn parse_json_object(text: &str) -> (r: Option<JsonMap>)
    ensures
        match r {
            Some(m) => parsed_json_object(text@) == Some(m@),
            None => parsed_json_object(text@) is None,
        },
{
    match from_str_object(text) {
        Some(v) => Some(StrMap::from_distinct(v)),
        None => None,
    }
}

/// The compact text that `serde_json::to_string` writes for the JSON object with the members `m`.
pub uninterp spec fn json_object_text_of(m: Map<Seq<char>, serde_json::Value>) -> Seq<char>;

/// `serde_json::to_string` of the object whose members are those of `m`
/// (a `serde_json::Map`, which orders its members by key).
#[verifier::external_body]
pub fn json_object_text(m: &JsonMap) -> (r: String)
    ensures
        r@ == json_object_text_of(m@),
{
    let object: serde_json::Map<String, serde_json::Value> = m.entries().iter().cloned().collect();
    match serde_json::to_string(&object) {
        Ok(s) => s,
        Err(_) => String::new(),
    }
}

/// The string that `serde_json::Value::get(key)` followed by `as_str` finds in `v`: the
/// member `key` of an object, where that member is a JSON string.
pub uninterp spec fn json_str_member_of(v: serde_json::Value, key: Seq<char>) -> Option<Seq<char>>;

/// `serde_json::Value::get(key)` then `as_str`: the string member `key` of the object `v`, or
/// `None` where `v` is not an object, has no such member, or the member is not a string.
#[verifier::external_body]
pub fn json_str_member(v: &serde_json::Value, key: &str) -> (r: Option<String>)
    ensures
        match r {
            Some(s) => json_str_member_of(*v, key@) == Some(s@),
            None => json_str_member_of(*v, key@) is None,
        },
{
    v.get(key).and_then(serde_json::Value::as_str).map(|s| s.to_string())
}

} // verus!
