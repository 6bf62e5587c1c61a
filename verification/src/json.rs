//! JSON values: the mathematical model of a document tree, and the access to
//! `serde_json`, which parses and holds the trees themselves.

use vstd::prelude::*;
use crate::text::str_eq;

verus! {

/// A JSON number as far as this crate reads it: an integer, or anything else.
pub enum JsonNumber {
    /// An integer written without fraction or exponent, between `i64::MIN`
    /// and `u64::MAX`.
    Integer(int),
    /// Any other number. Its value is not modelled.
    Real,
}

/// The mathematical model of a JSON value. The entries of an object stand in
/// the order of the document.
pub enum Json {
    Null,
    Bool(bool),
    Number(JsonNumber),
    Text(Seq<char>),
    Array(Seq<Json>),
    Object(Seq<(Seq<char>, Json)>),
}

#[verifier::external_type_specification]
#[verifier::external_body]
pub struct ExJsonValue(serde_json::Value);

#[verifier::external_type_specification]
#[verifier::external_body]
pub struct ExJsonError(serde_json::Error);

/// What a `serde_json::Value` holds.
pub uninterp spec fn json_of(v: serde_json::Value) -> Json;

/// What `serde_json::from_slice` reads from a text: the value, or `None`
/// where the text is not well-formed JSON.
pub uninterp spec fn json_document(text: Seq<u8>) -> Option<Json>;

/// The models of a list of values.
pub open spec fn values_model(items: Seq<serde_json::Value>) -> Seq<Json> {
    Seq::new(items.len(), |i: int| json_of(items[i]))
}

/// The models of a list of borrowed entries.
pub open spec fn entries_model(items: Seq<(&String, &serde_json::Value)>) -> Seq<(Seq<char>, Json)> {
    Seq::new(items.len(), |i: int| (items[i].0@, json_of(*items[i].1)))
}

/// The models of a list of owned entries.
pub open spec fn owned_entries_model(items: Seq<(String, serde_json::Value)>) -> Seq<(Seq<char>, Json)> {
    Seq::new(items.len(), |i: int| (items[i].0@, json_of(items[i].1)))
}

/// No key occurs twice.
pub open spec fn distinct_keys<V>(entries: Seq<(Seq<char>, V)>) -> bool {
    forall|i: int, j: int| 0 <= i < j < entries.len() ==> (#[trigger] entries[i]).0 != (#[trigger] entries[j]).0
}

/// The first entry under `key`, if there is one.
pub open spec fn lookup<V>(entries: Seq<(Seq<char>, V)>, key: Seq<char>) -> Option<V>
    decreases entries.len(),
{
    if entries.len() == 0 {
        None
    } else if entries[0].0 == key {
        Some(entries[0].1)
    } else {
        lookup(entries.drop_first(), key)
    }
}

/// The integer that a value holds, where it fits an `i64`.
pub open spec fn json_i64(j: Json) -> Option<i64> {
    match j {
        Json::Number(JsonNumber::Integer(n)) => if i64::MIN <= n <= i64::MAX {
            Some(n as i64)
        } else {
            None
        },
        _ => None,
    }
}

/// The integer that a value holds, where it fits a `u64`.
pub open spec fn json_u64(j: Json) -> Option<u64> {
    match j {
        Json::Number(JsonNumber::Integer(n)) => if 0 <= n <= u64::MAX {
            Some(n as u64)
        } else {
            None
        },
        _ => None,
    }
}

/// The truth value that a value holds.
pub open spec fn json_bool(j: Json) -> Option<bool> {
    match j {
        Json::Bool(b) => Some(b),
        _ => None,
    }
}

/// `serde_json::from_slice` at type `Value`: parses a JSON text. The result
/// is a function of the text alone, named `json_document`.
#[verifier::external_body]
pub(crate) fn parse_value(text: &[u8]) -> (r: Result<serde_json::Value, serde_json::Error>)
    ensures
        match r {
            Ok(v) => json_document(text@) == Some(json_of(v)),
            Err(_) => json_document(text@) is None,
        },
{
    serde_json::from_slice::<serde_json::Value>(text)
}

/// `Value::is_null`: whether the value is `null`.
#[verifier::external_body]
pub(crate) fn value_is_null(v: &serde_json::Value) -> (r: bool)
    ensures
        r == (json_of(*v) is Null),
{
    v.is_null()
}

/// `Value::as_bool`: the truth value of a boolean, `None` for any other value.
#[verifier::external_body]
pub(crate) fn value_as_bool(v: &serde_json::Value) -> (r: Option<bool>)
    ensures
        r == json_bool(json_of(*v)),
{
    v.as_bool()
}

/// `Value::as_i64`: the integer of a number that is an integer within
/// `i64`, `None` for any other value.
#[verifier::external_body]
pub(crate) fn value_as_i64(v: &serde_json::Value) -> (r: Option<i64>)
    ensures
        r == json_i64(json_of(*v)),
{
    v.as_i64()
}

/// `Value::as_u64`: the integer of a number that is an integer within
/// `u64`, `None` for any other value.
#[verifier::external_body]
pub(crate) fn value_as_u64(v: &serde_json::Value) -> (r: Option<u64>)
    ensures
        r == json_u64(json_of(*v)),
{
    v.as_u64()
}

/// `Value::as_str`: the text of a string, `None` for any other value.
#[verifier::external_body]
pub(crate) fn value_as_str(v: &serde_json::Value) -> (r: Option<&str>)
    ensures
        match r {
            Some(s) => json_of(*v) == Json::Text(s@),
            None => !(json_of(*v) is Text),
        },
{
    v.as_str()
}

/// `Value::as_array`: the elements of an array, `None` for any other value.
#[verifier::external_body]
pub(crate) fn value_as_array(v: &serde_json::Value) -> (r: Option<&Vec<serde_json::Value>>)
    ensures
        match r {
            Some(items) => json_of(*v) == Json::Array(values_model(items@)),
            None => !(json_of(*v) is Array),
        },
{
    v.as_array()
}

/// `Value::as_object` and `Map::iter`: the entries of an object in the
/// order in which the map holds them, `None` for any other value. A map
/// holds each key once.
#[verifier::external_body]
pub(crate) fn value_entries(v: &serde_json::Value) -> (r: Option<Vec<(&String, &serde_json::Value)>>)
    ensures
        match r {
            Some(items) => json_of(*v) == Json::Object(entries_model(items@)) && distinct_keys(
                entries_model(items@),
            ),
            None => !(json_of(*v) is Object),
        },
{
    v.as_object().map(|m| m.iter().collect())
}

/// `Value::clone`: a copy that holds the same tree.
#[verifier::external_body]
pub(crate) fn clone_value(v: &serde_json::Value) -> (r: serde_json::Value)
    ensures
        json_of(r) == json_of(*v),
{
    v.clone()
}

/// `Value::Null`.
#[verifier::external_body]
pub(crate) fn null_value() -> (r: serde_json::Value)
    ensures
        json_of(r) == Json::Null,
{
    serde_json::Value::Null
}

/// `Value::Bool`.
#[verifier::external_body]
pub(crate) fn bool_value(b: bool) -> (r: serde_json::Value)
    ensures
        json_of(r) == Json::Bool(b),
{
    serde_json::Value::Bool(b)
}

/// `Value::from` at `i64`: the number that holds this integer.
#[verifier::external_body]
pub(crate) fn int_value(n: i64) -> (r: serde_json::Value)
    ensures
        json_of(r) == Json::Number(JsonNumber::Integer(n as int)),
{
    serde_json::Value::from(n)
}

/// `Value::String`.
#[verifier::external_body]
pub(crate) fn text_value(s: String) -> (r: serde_json::Value)
    ensures
        json_of(r) == Json::Text(s@),
{
    serde_json::Value::String(s)
}

/// `Value::Array`.
#[verifier::external_body]
pub(crate) fn array_value(items: Vec<serde_json::Value>) -> (r: serde_json::Value)
    ensures
        json_of(r) == Json::Array(values_model(items@)),
{
    serde_json::Value::Array(items)
}

/// `Value::Object` of a `Map` collected from the entries: with distinct keys
/// the map holds the entries as given, in their order.
#[verifier::external_body]
pub(crate) fn object_value(entries: Vec<(String, serde_json::Value)>) -> (r: serde_json::Value)
    requires
        distinct_keys(owned_entries_model(entries@)),
    ensures
        json_of(r) == Json::Object(owned_entries_model(entries@)),
{
    serde_json::Value::Object(entries.into_iter().collect())
}

/// `lookup` finds nothing exactly when no entry has the key, and what it
/// finds is an entry.
pub proof fn lemma_lookup<V>(entries: Seq<(Seq<char>, V)>, key: Seq<char>)
    ensures
        lookup(entries, key) is None <==> forall|i: int| 0 <= i < entries.len() ==> (#[trigger] entries[i]).0 != key,
        lookup(entries, key) matches Some(v) ==> exists|i: int| 0 <= i < entries.len() && (#[trigger] entries[i]) == (key, v),
    decreases entries.len(),
{
    if entries.len() == 0 {
    } else if entries[0].0 == key {
        assert(entries[0] == (key, entries[0].1));
    } else {
        let rest = entries.drop_first();
        lemma_lookup(rest, key);
        assert forall|i: int| 0 <= i < rest.len() implies rest[i] == entries[i + 1] by {}
        if lookup(rest, key) is None {
            assert forall|i: int| 0 <= i < entries.len() implies (#[trigger] entries[i]).0 != key by {
                if i > 0 {
                    assert(rest[i - 1] == entries[i]);
                }
            }
        } else {
            let v = lookup(rest, key)->Some_0;
            let i = choose|i: int| 0 <= i < rest.len() && (#[trigger] rest[i]) == (key, v);
            assert(entries[i + 1] == (key, v));
        }
    }
}

/// The value under `key` among the entries of an object.
pub(crate) fn find<'a>(items: &Vec<(&'a String, &'a serde_json::Value)>, key: &str) -> (r: Option<&'a serde_json::Value>)
    ensures
        match r {
            Some(v) => lookup(entries_model(items@), key@) == Some(json_of(*v)),
            None => lookup(entries_model(items@), key@) is None,
        },
{
    let ghost es = entries_model(items@);
    let mut i: usize = 0;
    proof {
        assert(es.skip(0) =~= es);
    }
    while i < items.len()
        invariant
            i <= items@.len(),
            es == entries_model(items@),
            lookup(es, key@) == lookup(es.skip(i as int), key@),
        decreases items@.len() - i,
    {
        if str_eq(items[i].0.as_str(), key) {
            proof {
                assert(es.skip(i as int)[0] == es[i as int]);
            }
            return Some(items[i].1);
        }
        proof {
            assert(es.skip(i as int)[0] == es[i as int]);
            assert(es.skip(i as int).drop_first() =~= es.skip(i as int + 1));
        }
        i += 1;
    }
    proof {
        assert(es.skip(i as int).len() == 0);
    }
    None
}

} // verus!
