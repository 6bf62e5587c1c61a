//! Insertion-ordered maps keyed by text: the model of their contents and the
//! access to `indexmap`, which holds them.

use vstd::prelude::*;
use crate::json::{distinct_keys, json_of, Json};

verus! {

#[verifier::external_type_specification]
#[verifier::external_body]
#[verifier::reject_recursive_types(K)]
#[verifier::reject_recursive_types(V)]
#[verifier::reject_recursive_types(S)]
pub struct ExIndexMap<K, V, S>(indexmap::IndexMap<K, V, S>);

/// The entries after an insertion: an entry with the key keeps its place and
/// takes the new value, any other key is appended.
pub open spec fn upsert<V>(entries: Seq<(Seq<char>, V)>, key: Seq<char>, value: V) -> Seq<(Seq<char>, V)> {
    if exists|i: int| 0 <= i < entries.len() && (#[trigger] entries[i]).0 == key {
        let i = choose|i: int| 0 <= i < entries.len() && (#[trigger] entries[i]).0 == key;
        entries.update(i, (key, value))
    } else {
        entries.push((key, value))
    }
}

/// What a map from text to text holds, in its order.
pub uninterp spec fn text_entries(m: indexmap::IndexMap<String, String>) -> Seq<(Seq<char>, Seq<char>)>;

/// What a map from text to JSON values holds, in its order.
pub uninterp spec fn value_entries_of(m: indexmap::IndexMap<String, serde_json::Value>) -> Seq<(Seq<char>, Json)>;

/// The models of a list of borrowed text entries.
pub open spec fn text_pairs(items: Seq<(&String, &String)>) -> Seq<(Seq<char>, Seq<char>)> {
    Seq::new(items.len(), |i: int| (items[i].0@, items[i].1@))
}

/// `IndexMap::new`: a map without entries.
#[verifier::external_body]
pub(crate) fn text_map_new() -> (m: indexmap::IndexMap<String, String>)
    ensures
        text_entries(m) == Seq::<(Seq<char>, Seq<char>)>::empty(),
{
    indexmap::IndexMap::new()
}

/// `IndexMap::insert`: replaces the value of a key the map has, in place,
/// and appends any other key.
#[verifier::external_body]
pub(crate) fn text_map_insert(m: &mut indexmap::IndexMap<String, String>, key: String, value: String)
    ensures
        text_entries(*final(m)) == upsert(text_entries(*old(m)), key@, value@),
{
    m.insert(key, value);
}

/// `IndexMap::iter`: the entries in the map's order. A map holds each key once.
#[verifier::external_body]
pub(crate) fn text_map_entries(m: &indexmap::IndexMap<String, String>) -> (r: Vec<(&String, &String)>)
    ensures
        text_pairs(r@) == text_entries(*m),
        distinct_keys(text_pairs(r@)),
{
    m.iter().collect()
}

/// `IndexMap::new`: a map without entries.
#[verifier::external_body]
pub(crate) fn value_map_new() -> (m: indexmap::IndexMap<String, serde_json::Value>)
    ensures
        value_entries_of(m) == Seq::<(Seq<char>, Json)>::empty(),
{
    indexmap::IndexMap::new()
}

/// `IndexMap::insert`: replaces the value of a key the map has, in place,
/// and appends any other key.
#[verifier::external_body]
pub(crate) fn value_map_insert(
    m: &mut indexmap::IndexMap<String, serde_json::Value>,
    key: String,
    value: serde_json::Value,
)
    ensures
        value_entries_of(*final(m)) == upsert(value_entries_of(*old(m)), key@, json_of(value)),
{
    m.insert(key, value);
}

/// `IndexMap::iter`: the entries in the map's order. A map holds each key once.
#[verifier::external_body]
pub(crate) fn value_map_entries(m: &indexmap::IndexMap<String, serde_json::Value>) -> (r: Vec<
    (&String, &serde_json::Value),
>)
    ensures
        crate::json::entries_model(r@) == value_entries_of(*m),
        distinct_keys(crate::json::entries_model(r@)),
{
    m.iter().collect()
}

/// Inserting a key that the entries lack appends it.
pub proof fn lemma_upsert_fresh<V>(entries: Seq<(Seq<char>, V)>, key: Seq<char>, value: V)
    requires
        forall|i: int| 0 <= i < entries.len() ==> (#[trigger] entries[i]).0 != key,
    ensures
        upsert(entries, key, value) == entries.push((key, value)),
{
}

} // verus!
