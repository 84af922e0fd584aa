//! JSON documents: the mathematical model and the boundary to `serde_json`.
//!
//! A `serde_json::Value` is opaque to the verifier. Everything the library
//! knows about one is stated through [`json_view`], and every fact about
//! `json_view` comes from the declarations in this file. None of them is
//! proved. Each states what `serde_json` does in one of its functions, for
//! the crate as it is built without its feature `arbitrary_precision`.

use serde_json::Value;
use vstd::prelude::*;

verus! {

/// A JSON document as a mathematical value.
pub enum Json {
    Null,
    Bool(bool),
    /// A number that is held as an integer: one written without fraction
    /// or exponent, from the least integer of 64 signed bits to the
    /// greatest of 64 unsigned bits.
    Int(int),
    /// Any other number, told apart by its 64-bit pattern.
    Float(u64),
    Str(Seq<char>),
    /// The elements in their order.
    Array(Seq<Json>),
    /// The members under their keys. The order of members is no part of
    /// the document.
    Object(Map<Seq<char>, Json>),
}

impl Json {
    /// The member of an object under `key`; nothing for a missing member
    /// and for a document that is no object.
    pub open spec fn member(self, key: Seq<char>) -> Option<Json> {
        match self {
            Json::Object(fields) => if fields.contains_key(key) {
                Some(fields[key])
            } else {
                None
            },
            _ => None,
        }
    }
}

/// Makes the type `serde_json::Value` known to the verifier, without its
/// variants.
#[verifier::external_type_specification]
#[verifier::external_body]
pub struct ExValue(serde_json::Value);

/// The document that a `serde_json::Value` holds.
pub uninterp spec fn json_view(v: Value) -> Json;

/// The outcome of reading `text` as one JSON document with `serde_json`:
/// the document, or the description of the first error.
pub uninterp spec fn parsed(text: Seq<char>) -> Result<Json, Seq<char>>;

/// The documents held by a run of values, in order.
pub open spec fn json_views(vs: Seq<Value>) -> Seq<Json> {
    vs.map_values(|v: Value| json_view(v))
}

/// The keys of a list of object entries are pairwise different.
pub open spec fn distinct_keys(entries: Seq<(String, Value)>) -> bool {
    forall|i: int, j: int|
        0 <= i < j < entries.len() ==> (#[trigger] entries[i]).0@ != (#[trigger] entries[j]).0@
}

/// The object built by adding the given entries one after another.
pub open spec fn object_of(entries: Seq<(String, Value)>) -> Map<Seq<char>, Json>
    decreases entries.len(),
{
    if entries.len() == 0 {
        Map::empty()
    } else {
        object_of(entries.drop_last()).insert(entries.last().0@, json_view(entries.last().1))
    }
}

/// `Value::is_null`: true for the null value and for no other.
pub assume_specification[ Value::is_null ](v: &Value) -> (r: bool)
    ensures
        r == (json_view(*v) is Null),
;

/// `Value::is_object`: true for an object and for no other value.
pub assume_specification[ Value::is_object ](v: &Value) -> (r: bool)
    ensures
        r == (json_view(*v) is Object),
;

/// `Value::as_bool`: the truth value of a boolean, nothing for any other
/// value.
pub assume_specification[ Value::as_bool ](v: &Value) -> (r: Option<bool>)
    ensures
        r == match json_view(*v) {
            Json::Bool(b) => Some(b),
            _ => None::<bool>,
        },
;

/// `Value::as_i64`: an integer number that fits in 64 signed bits; nothing
/// for a larger integer, for a number with a fraction and for any value
/// that is no number.
pub assume_specification[ Value::as_i64 ](v: &Value) -> (r: Option<i64>)
    ensures
        r == match json_view(*v) {
            Json::Int(n) => if i64::MIN <= n <= i64::MAX {
                Some(n as i64)
            } else {
                None::<i64>
            },
            _ => None::<i64>,
        },
;

/// `Value::as_str`: the text of a string, nothing for any other value.
pub assume_specification<'a>[ Value::as_str ](v: &'a Value) -> (r: Option<&'a str>)
    ensures
        match json_view(*v) {
            Json::Str(s) => r is Some && r.unwrap()@ == s,
            _ => r is None,
        },
;

/// `Value::as_array`: the elements of an array in order, nothing for any
/// other value.
pub assume_specification<'a>[ Value::as_array ](v: &'a Value) -> (r: Option<&'a Vec<Value>>)
    ensures
        match json_view(*v) {
            Json::Array(items) => r is Some && json_views(r.unwrap()@) == items,
            _ => r is None,
        },
;

/// `Clone` for `Value`: the copy holds the same document.
pub assume_specification[ <Value as Clone>::clone ](v: &Value) -> (r: Value)
    ensures
        json_view(r) == json_view(*v),
;

/// `Value::get` with a string index: the member of an object under `key`,
/// nothing where the object has no such member or the value is no object.
#[verifier::external_body]
pub(crate) fn member<'a>(v: &'a Value, key: &str) -> (r: Option<&'a Value>)
    ensures
        match json_view(*v).member(key@) {
            Some(m) => r is Some && json_view(*r.unwrap()) == m,
            None => r is None,
        },
{
    v.get(key)
}

/// `serde_json::from_str` at type `Value`: reads one JSON document. The
/// error is handed on as the text that its `Display` gives.
#[verifier::external_body]
pub(crate) fn parse(text: &str) -> (r: Result<Value, String>)
    ensures
        match r {
            Ok(v) => parsed(text@) == Ok::<Json, Seq<char>>(json_view(v)),
            Err(e) => parsed(text@) == Err::<Json, Seq<char>>(e@),
        },
{
    match serde_json::from_str::<Value>(text) {
        Ok(v) => Ok(v),
        Err(e) => Err(e.to_string()),
    }
}

/// The variant `Value::Null`.
#[verifier::external_body]
pub(crate) fn null() -> (r: Value)
    ensures
        json_view(r) == Json::Null,
{
    Value::Null
}

/// The variant `Value::Bool`.
#[verifier::external_body]
pub(crate) fn boolean(b: bool) -> (r: Value)
    ensures
        json_view(r) == Json::Bool(b),
{
    Value::Bool(b)
}

/// `From<i64>` for `Value`: the integer number `n`.
#[verifier::external_body]
pub(crate) fn integer(n: i64) -> (r: Value)
    ensures
        json_view(r) == Json::Int(n as int),
{
    Value::from(n)
}

/// `From<u64>` for `Value`: the integer number `n`.
#[verifier::external_body]
pub(crate) fn unsigned(n: u64) -> (r: Value)
    ensures
        json_view(r) == Json::Int(n as int),
{
    Value::from(n)
}

/// The variant `Value::String`.
#[verifier::external_body]
pub(crate) fn string(s: String) -> (r: Value)
    ensures
        json_view(r) == Json::Str(s@),
{
    Value::String(s)
}

/// The variant `Value::Array`.
#[verifier::external_body]
pub(crate) fn array(items: Vec<Value>) -> (r: Value)
    ensures
        json_view(r) == Json::Array(json_views(items@)),
{
    Value::Array(items)
}

/// `FromIterator<(String, Value)>` for `serde_json::Map`, wrapped in
/// `Value::Object`: the object with the given members. Entries with equal
/// keys are left out of the contract.
#[verifier::external_body]
pub(crate) fn object(entries: Vec<(String, Value)>) -> (r: Value)
    requires
        distinct_keys(entries@),
    ensures
        json_view(r) == Json::Object(object_of(entries@)),
{
    Value::Object(entries.into_iter().collect())
}

} // verus!
