//! The boundary to `serde_json`: a mathematical model of the JSON documents
//! that the library builds, and the constructors of `serde_json` that it
//! calls. Verus takes the contracts of these constructors on trust; all that
//! is built from them is verified.

use vstd::prelude::*;

verus! {

/// The part of JSON that a pod manifest uses.
pub enum JsonDoc {
    Bool(bool),
    Int(int),
    Text(Seq<char>),
    List(Seq<JsonDoc>),
    Object(Map<Seq<char>, JsonDoc>),
}

impl JsonDoc {
    /// The member `key` of an object.
    pub open spec fn member(self, key: Seq<char>) -> JsonDoc
        recommends
            self matches JsonDoc::Object(members) && members.contains_key(key),
    {
        match self {
            JsonDoc::Object(members) => members[key],
            _ => self,
        }
    }

    /// Item `i` of an array.
    pub open spec fn item(self, i: int) -> JsonDoc
        recommends
            self matches JsonDoc::List(items) && 0 <= i < items.len(),
    {
        match self {
            JsonDoc::List(items) => items[i],
            _ => self,
        }
    }
}

#[verifier::external_type_specification]
#[verifier::external_body]
pub struct ExValue(serde_json::Value);

#[verifier::external_type_specification]
#[verifier::external_body]
#[verifier::reject_recursive_types(K)]
#[verifier::reject_recursive_types(V)]
pub struct ExMap<K, V>(serde_json::Map<K, V>);

/// The document that a `serde_json::Value` holds.
pub uninterp spec fn json_doc(v: serde_json::Value) -> JsonDoc;

/// The members that a `serde_json::Map` holds, each under its key.
pub uninterp spec fn json_members(m: serde_json::Map<String, serde_json::Value>) -> Map<Seq<char>, JsonDoc>;

/// Calls `serde_json::Value::from` on a `&str`. Trusted: the result is
/// `Value::String` of a copy of `s`, the JSON string of the same characters.
#[verifier::external_body]
pub(crate) fn json_text(s: &str) -> (v: serde_json::Value)
    ensures
        json_doc(v) == JsonDoc::Text(s@),
{
    serde_json::Value::from(s)
}

/// Calls `serde_json::Value::from` on a `bool`. Trusted: the result is
/// `Value::Bool(b)`.
#[verifier::external_body]
pub(crate) fn json_bool(b: bool) -> (v: serde_json::Value)
    ensures
        json_doc(v) == JsonDoc::Bool(b),
{
    serde_json::Value::from(b)
}

/// Calls `serde_json::Value::from` on an `i64`. Trusted: the result is
/// `Value::Number` of the number with the integer value `n`.
#[verifier::external_body]
pub(crate) fn json_int(n: i64) -> (v: serde_json::Value)
    ensures
        json_doc(v) == JsonDoc::Int(n as int),
{
    serde_json::Value::from(n)
}

/// Calls `serde_json::Value::from` on a `Vec<Value>`. Trusted: the result is
/// `Value::Array` of the same values in the same order.
#[verifier::external_body]
pub(crate) fn json_list(items: Vec<serde_json::Value>) -> (v: serde_json::Value)
    ensures
        json_doc(v) == JsonDoc::List(items@.map_values(|item: serde_json::Value| json_doc(item))),
{
    serde_json::Value::from(items)
}

/// Calls `serde_json::Map::new`. Trusted: the result has no members.
#[verifier::external_body]
pub(crate) fn members_new() -> (m: serde_json::Map<String, serde_json::Value>)
    ensures
        json_members(m) == (Map::<Seq<char>, JsonDoc>::empty()),
{
    serde_json::Map::new()
}

/// Calls `serde_json::Map::insert` with a copy of `key`. Trusted: the map
/// then holds `v` under `key`, in place of what it held there before, and
/// its other members unchanged.
#[verifier::external_body]
pub(crate) fn members_insert(m: &mut serde_json::Map<String, serde_json::Value>, key: &str, v: serde_json::Value)
    ensures
        json_members(*final(m)) == json_members(*old(m)).insert(key@, json_doc(v)),
{
    m.insert(key.to_owned(), v);
}

/// Calls `serde_json::Value::from` on a `Map`. Trusted: the result is
/// `Value::Object` of the map.
#[verifier::external_body]
pub(crate) fn json_object(m: serde_json::Map<String, serde_json::Value>) -> (v: serde_json::Value)
    ensures
        json_doc(v) == JsonDoc::Object(json_members(m)),
{
    serde_json::Value::from(m)
}

/// The JSON object with the single member `v` under `key`.
pub fn singleton(key: &str, v: serde_json::Value) -> (r: serde_json::Value)
    ensures
        json_doc(r) == JsonDoc::Object(map![key@ => json_doc(v)]),
{
    let mut m = members_new();
    members_insert(&mut m, key, v);
    json_object(m)
}

/// The JSON array with the single item `v`.
pub fn single_item(v: serde_json::Value) -> (r: serde_json::Value)
    ensures
        json_doc(r) == JsonDoc::List(seq![json_doc(v)]),
{
    let mut items: Vec<serde_json::Value> = Vec::new();
    items.push(v);
    assert(items@.map_values(|item: serde_json::Value| json_doc(item)) =~= seq![json_doc(v)]);
    json_list(items)
}

} // verus!
