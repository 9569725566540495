//! JSON values as the backends return them.
//!
//! A [`serde_json::Value`] is carried through the library unopened. What the
//! library needs to know of one is named here, and every item of this file is
//! believed rather than proved: each states what the `serde_json` function it
//! calls returns.

use serde_json::Value;
use vstd::prelude::*;

verus! {

/// `serde_json::Value`, of which the library sees nothing but what the
/// functions below tell.
#[verifier::external_type_specification]
#[verifier::external_body]
pub struct ExValue(serde_json::Value);

/// `serde_json::Map`, the members of a JSON object.
#[verifier::external_type_specification]
#[verifier::external_body]
#[verifier::reject_recursive_types(K)]
#[verifier::reject_recursive_types(V)]
pub struct ExMap<K, V>(serde_json::Map<K, V>);

/// `serde_json::Error`, the failure of a serialiser.
#[verifier::external_type_specification]
#[verifier::external_body]
pub struct ExJsonError(serde_json::Error);

/// The elements of a JSON array, in order; `None` for any other value.
pub uninterp spec fn array_items(v: Value) -> Option<Seq<Value>>;

/// The map of a JSON object; `None` for any other value.
pub uninterp spec fn object_map(v: Value) -> Option<serde_json::Map<String, Value>>;

/// What a map holds: its members as key and value, in the order in which the
/// map walks them.
pub uninterp spec fn members(m: serde_json::Map<String, Value>) -> Seq<(Seq<char>, Value)>;

/// The value of the first member with the given key.
pub open spec fn member_value(ms: Seq<(Seq<char>, Value)>, key: Seq<char>) -> Option<Value>
    decreases ms.len(),
{
    if ms.len() == 0 {
        None
    } else if ms[0].0 == key {
        Some(ms[0].1)
    } else {
        member_value(ms.drop_first(), key)
    }
}

/// The text of a JSON string; `None` for any other value.
pub uninterp spec fn string_content(v: Value) -> Option<Seq<char>>;

/// Whether the value is JSON `null`.
pub uninterp spec fn is_json_null(v: Value) -> bool;

/// The compact JSON text of a value.
pub uninterp spec fn compact_text(v: Value) -> Seq<char>;

/// The indented JSON text of an array of the given values, where the
/// serialiser produces one.
pub uninterp spec fn pretty_text(rows: Seq<Value>) -> Option<Seq<char>>;

/// `Value::as_array`: the array's elements if the value is an array.
pub assume_specification[ serde_json::Value::as_array ](v: &Value) -> (r: Option<&Vec<Value>>)
    ensures
        match r {
            Some(items) => array_items(*v) == Some(items@),
            None => array_items(*v).is_none(),
        },
;

/// `Value::as_object`: the object's map if the value is an object.
pub assume_specification[ serde_json::Value::as_object ](v: &Value) -> (r: Option<&serde_json::Map<String, Value>>)
    ensures
        match r {
            Some(m) => object_map(*v) == Some(*m),
            None => object_map(*v).is_none(),
        },
;

/// `Map::keys`, each key cloned: the keys of the members, in the map's order.
#[verifier::external_body]
pub(crate) fn keys_of(m: &serde_json::Map<String, Value>) -> (r: Vec<String>)
    ensures
        r@.len() == members(*m).len(),
        forall|i: int| 0 <= i < r@.len() ==> (#[trigger] r@[i])@ == members(*m)[i].0,
{
    m.keys().cloned().collect()
}

/// `Map::get` with a string key: the value held under that key, if any. A
/// map holds a key at most once; the contract speaks of the first member
/// with the key.
#[verifier::external_body]
pub(crate) fn get_member<'a>(m: &'a serde_json::Map<String, Value>, key: &str) -> (r: Option<&'a Value>)
    ensures
        match r {
            Some(v) => member_value(members(*m), key@) == Some(*v),
            None => member_value(members(*m), key@).is_none(),
        },
{
    m.get(key)
}

/// `Value::as_str`: the string's text if the value is a string.
pub assume_specification[ serde_json::Value::as_str ](v: &Value) -> (r: Option<&str>)
    ensures
        match r {
            Some(s) => string_content(*v) == Some(s@),
            None => string_content(*v).is_none(),
        },
;

/// `Value::is_null`.
pub assume_specification[ serde_json::Value::is_null ](v: &Value) -> (r: bool)
    ensures
        r == is_json_null(*v),
;

/// `Value`'s `Display`, through `to_string`: the compact JSON text.
#[verifier::external_body]
pub(crate) fn to_compact_text(v: &Value) -> (r: String)
    ensures
        r@ == compact_text(*v),
{
    v.to_string()
}

/// `Value`'s `Clone`: an equal value.
#[verifier::external_body]
pub(crate) fn clone_value(v: &Value) -> (r: Value)
    ensures
        r == *v,
{
    v.clone()
}

/// `serde_json::to_string_pretty` on a slice of values.
#[verifier::external_body]
pub(crate) fn to_pretty_text(rows: &[Value]) -> (r: Result<String, serde_json::Error>)
    ensures
        match r {
            Ok(text) => pretty_text(rows@) == Some(text@),
            Err(_) => pretty_text(rows@).is_none(),
        },
{
    serde_json::to_string_pretty(rows)
}

} // verus!
