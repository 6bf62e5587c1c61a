//! How the fields of a document are written to JSON: which fields an object
//! gets, and what stands for a value of each field type.

use vstd::prelude::*;
use crate::json::{
    array_value, clone_value, distinct_keys, entries_model, json_of, lookup, null_value,
    object_value, owned_entries_model, text_value, values_model, Json,
};
use crate::ordered::{
    text_entries, text_map_entries, text_pairs, value_entries_of, value_map_entries,
};
use crate::reference::{url_as_str, url_text};
use crate::text::owned;
use crate::timestamp::{rfc3339_text, Timestamp};

verus! {

/// The entries of an object, from the table of its fields: a field that has
/// a value is written, in the table's order, and a field without is left out.
pub open spec fn present(fields: Seq<(Seq<char>, Option<Json>)>) -> Seq<(Seq<char>, Json)>
    decreases fields.len(),
{
    if fields.len() == 0 {
        Seq::empty()
    } else {
        let front = present(fields.drop_last());
        match fields.last().1 {
            Some(j) => front.push((fields.last().0, j)),
            None => front,
        }
    }
}

/// The object of a table of fields.
pub open spec fn object_json(fields: Seq<(Seq<char>, Option<Json>)>) -> Json {
    Json::Object(present(fields))
}

/// Every written entry comes from a field of the table that has a value,
/// and the entries keep the order of the table.
pub proof fn lemma_present(fields: Seq<(Seq<char>, Option<Json>)>)
    ensures
        present(fields).len() <= fields.len(),
        forall|i: int| 0 <= i < present(fields).len() ==> exists|k: int| i <= k < fields.len() && (#[trigger] fields[k]) == ((#[trigger] present(fields)[i]).0, Some(present(fields)[i].1)),
        distinct_keys(fields) ==> distinct_keys(present(fields)),
    decreases fields.len(),
{
    if fields.len() > 0 {
        let front_fields = fields.drop_last();
        let front = present(front_fields);
        lemma_present(front_fields);
        let out = present(fields);
        let n = fields.len() - 1;
        assert forall|i: int| 0 <= i < out.len() implies exists|k: int| i <= k < fields.len() && (#[trigger] fields[k]) == ((#[trigger] out[i]).0, Some(out[i].1)) by {
            if i < front.len() {
                assert(out[i] == front[i]);
                let k = choose|k: int| i <= k < front_fields.len() && (#[trigger] front_fields[k]) == (front[i].0, Some(front[i].1));
                assert(fields[k] == front_fields[k]);
            } else {
                assert(fields[n] == (out[i].0, Some(out[i].1)));
            }
        }
        if distinct_keys(fields) {
            assert(distinct_keys(front_fields)) by {
                assert forall|a: int, b: int| 0 <= a < b < front_fields.len() implies (#[trigger] front_fields[a]).0 != (#[trigger] front_fields[b]).0 by {
                    assert(front_fields[a] == fields[a]);
                    assert(front_fields[b] == fields[b]);
                }
            }
            assert forall|a: int, b: int| 0 <= a < b < out.len() implies (#[trigger] out[a]).0 != (#[trigger] out[b]).0 by {
                if b < front.len() {
                    assert(out[a] == front[a]);
                    assert(out[b] == front[b]);
                } else {
                    assert(out[a] == front[a]);
                    let k = choose|k: int| a <= k < front_fields.len() && (#[trigger] front_fields[k]) == (front[a].0, Some(front[a].1));
                    assert(fields[k] == front_fields[k]);
                    assert(fields[k].0 != fields[n].0);
                }
            }
        }
    }
}

/// Where the last entry is not under `key`, `lookup` passes it over.
pub proof fn lemma_lookup_push<V>(entries: Seq<(Seq<char>, V)>, e: (Seq<char>, V), key: Seq<char>)
    ensures
        lookup(entries.push(e), key) == (match lookup(entries, key) {
            Some(v) => Some(v),
            None => if e.0 == key {
                Some(e.1)
            } else {
                None
            },
        }),
    decreases entries.len(),
{
    let all = entries.push(e);
    if entries.len() == 0 {
        assert(all.drop_first() =~= Seq::<(Seq<char>, V)>::empty());
    } else {
        assert(all[0] == entries[0]);
        assert(all.drop_first() =~= entries.drop_first().push(e));
        if entries[0].0 != key {
            lemma_lookup_push(entries.drop_first(), e, key);
        }
    }
}

/// What `lookup` finds in a written object under the name of a field is the
/// value of the field, and nothing where the field was left out.
pub proof fn lemma_present_lookup(fields: Seq<(Seq<char>, Option<Json>)>, i: int)
    requires
        distinct_keys(fields),
        0 <= i < fields.len(),
    ensures
        lookup(present(fields), fields[i].0) == fields[i].1,
    decreases fields.len(),
{
    let front_fields = fields.drop_last();
    let front = present(front_fields);
    let last = fields.last();
    let key = fields[i].0;
    assert(distinct_keys(front_fields)) by {
        assert forall|a: int, b: int| 0 <= a < b < front_fields.len() implies (#[trigger] front_fields[a]).0 != (#[trigger] front_fields[b]).0 by {
            assert(front_fields[a] == fields[a]);
            assert(front_fields[b] == fields[b]);
        }
    }
    if i < fields.len() - 1 {
        assert(front_fields[i] == fields[i]);
        lemma_present_lookup(front_fields, i);
        assert(last.0 != key) by {
            assert(fields[i].0 != fields[fields.len() - 1].0);
        }
        match last.1 {
            Some(j) => {
                lemma_lookup_push(front, (last.0, j), key);
            },
            None => {},
        }
    } else {
        lemma_present(front_fields);
        crate::json::lemma_lookup(front, key);
        assert(lookup(front, key) is None) by {
            assert forall|a: int| 0 <= a < front.len() implies (#[trigger] front[a]).0 != key by {
                let k = choose|k: int| a <= k < front_fields.len() && (#[trigger] front_fields[k]) == (front[a].0, Some(front[a].1));
                assert(fields[k] == front_fields[k]);
                assert(fields[k].0 != fields[i].0);
            }
        }
        match last.1 {
            Some(j) => {
                lemma_lookup_push(front, (last.0, j), key);
            },
            None => {},
        }
    }
}

/// The fields of an object in the making.
pub(crate) struct Fields {
    entries: Vec<(String, serde_json::Value)>,
    table: Ghost<Seq<(Seq<char>, Option<Json>)>>,
}

impl Fields {
    /// The entries made are those of the table.
    pub(crate) closed spec fn wf(&self) -> bool {
        owned_entries_model(self.entries@) == present(self.table@)
    }

    /// The table of the fields put so far.
    pub(crate) closed spec fn table(&self) -> Seq<(Seq<char>, Option<Json>)> {
        self.table@
    }

    /// No fields.
    pub(crate) fn new() -> (r: Fields)
        ensures
            r.wf(),
            r.table() == Seq::<(Seq<char>, Option<Json>)>::empty(),
    {
        let entries: Vec<(String, serde_json::Value)> = Vec::new();
        proof {
            assert(owned_entries_model(entries@) =~= Seq::<(Seq<char>, Json)>::empty());
        }
        Fields { entries, table: Ghost(Seq::empty()) }
    }

    /// With one more field, which is written.
    pub(crate) fn put(self, key: &str, value: serde_json::Value) -> (r: Fields)
        requires
            self.wf(),
        ensures
            r.wf(),
            r.table() == self.table().push((key@, Some(json_of(value)))),
    {
        let ghost before = owned_entries_model(self.entries@);
        let ghost table = self.table@.push((key@, Some(json_of(value))));
        let mut entries = self.entries;
        entries.push((owned(key), value));
        proof {
            assert(table.drop_last() =~= self.table@);
            assert(owned_entries_model(entries@) =~= before.push((key@, json_of(value))));
        }
        Fields { entries, table: Ghost(table) }
    }

    /// With one more field, which is written where it has a value.
    pub(crate) fn put_some(self, key: &str, value: Option<serde_json::Value>) -> (r: Fields)
        requires
            self.wf(),
        ensures
            r.wf(),
            r.table() == self.table().push((key@, opt_json(value))),
    {
        match value {
            Some(v) => self.put(key, v),
            None => {
                let ghost table = self.table@.push((key@, None));
                proof {
                    assert(table.drop_last() =~= self.table@);
                }
                Fields { entries: self.entries, table: Ghost(table) }
            },
        }
    }

    /// The object of the fields.
    pub(crate) fn finish(self) -> (r: serde_json::Value)
        requires
            self.wf(),
            distinct_keys(self.table()),
        ensures
            json_of(r) == object_json(self.table()),
    {
        proof {
            lemma_present(self.table@);
        }
        object_value(self.entries)
    }
}

/// The model of an optional value.
pub open spec fn opt_json(o: Option<serde_json::Value>) -> Option<Json> {
    match o {
        Some(v) => Some(json_of(v)),
        None => None,
    }
}

/// A string, or `null`.
pub open spec fn nullable_text(o: Option<Seq<char>>) -> Json {
    match o {
        Some(s) => Json::Text(s),
        None => Json::Null,
    }
}

/// A string, where there is one.
pub open spec fn some_text(o: Option<Seq<char>>) -> Option<Json> {
    match o {
        Some(s) => Some(Json::Text(s)),
        None => None,
    }
}

/// An array with the value that `encode` gives for each element.
pub open spec fn list_json<T>(l: Seq<T>, encode: spec_fn(T) -> Json) -> Json {
    Json::Array(Seq::new(l.len(), |i: int| encode(l[i])))
}

/// A string, as a function of its text.
pub open spec fn text_encoder() -> spec_fn(Seq<char>) -> Json {
    |s: Seq<char>| Json::Text(s)
}

/// An array of strings.
pub open spec fn text_list_json(l: Seq<Seq<char>>) -> Json {
    list_json(l, text_encoder())
}

/// An array of strings, or `null`.
pub open spec fn nullable_text_list(o: Option<Seq<Seq<char>>>) -> Json {
    match o {
        Some(l) => text_list_json(l),
        None => Json::Null,
    }
}

/// An array of strings, unless it is empty.
pub open spec fn filled_text_list(l: Seq<Seq<char>>) -> Option<Json> {
    if l.len() == 0 {
        None
    } else {
        Some(text_list_json(l))
    }
}

/// An object with a string under each key.
pub open spec fn text_map_json(m: Seq<(Seq<char>, Seq<char>)>) -> Json {
    Json::Object(Seq::new(m.len(), |i: int| (m[i].0, Json::Text(m[i].1))))
}

/// An object with a string under each key, or `null`.
pub open spec fn nullable_text_map(o: Option<Seq<(Seq<char>, Seq<char>)>>) -> Json {
    match o {
        Some(m) => text_map_json(m),
        None => Json::Null,
    }
}

/// An object with the given values, or `null`.
pub open spec fn nullable_value_map(o: Option<Seq<(Seq<char>, Json)>>) -> Json {
    match o {
        Some(m) => Json::Object(m),
        None => Json::Null,
    }
}

/// An object with the given values, unless it is empty.
pub open spec fn filled_value_map(m: Seq<(Seq<char>, Json)>) -> Option<Json> {
    if m.len() == 0 {
        None
    } else {
        Some(Json::Object(m))
    }
}

/// The text that `chrono` writes for an instant, as a string.
pub open spec fn timestamp_json(t: (i64, u32)) -> Json {
    Json::Text(rfc3339_text(t.0, t.1)->Some_0)
}

/// A date and time, where there is one.
pub open spec fn some_timestamp(o: Option<(i64, u32)>) -> Option<Json> {
    match o {
        Some(t) => Some(timestamp_json(t)),
        None => None,
    }
}

/// Writes a string, or `null`.
pub(crate) fn nullable_text_value(o: &Option<String>) -> (r: serde_json::Value)
    ensures
        json_of(r) == nullable_text(crate::text::opt_text(*o)),
{
    match o {
        Some(s) => text_value(s.clone()),
        None => null_value(),
    }
}

/// Writes a string, where there is one.
pub(crate) fn some_text_value(o: &Option<String>) -> (r: Option<serde_json::Value>)
    ensures
        opt_json(r) == some_text(crate::text::opt_text(*o)),
{
    match o {
        Some(s) => Some(text_value(s.clone())),
        None => None,
    }
}

/// Writes a date and time, where there is one.
pub(crate) fn some_timestamp_value(o: &Option<Timestamp>) -> (r: Option<serde_json::Value>)
    ensures
        opt_json(r) == some_timestamp(crate::timestamp::opt_instant(*o)),
{
    match o {
        Some(t) => Some(text_value(t.to_rfc3339())),
        None => None,
    }
}

/// Writes an array of strings.
pub(crate) fn text_list_value(l: &Vec<String>) -> (r: serde_json::Value)
    ensures
        json_of(r) == text_list_json(l.deep_view()),
{
    let mut out: Vec<serde_json::Value> = Vec::new();
    let mut i: usize = 0;
    while i < l.len()
        invariant
            i <= l@.len(),
            out@.len() == i,
            forall|j: int| 0 <= j < i ==> json_of(#[trigger] out@[j]) == Json::Text(l@[j]@),
        decreases l@.len() - i,
    {
        out.push(text_value(l[i].clone()));
        i += 1;
    }
    proof {
        let model = l.deep_view();
        assert(values_model(out@) =~= Seq::new(model.len(), |i: int| text_encoder()(model[i])));
    }
    array_value(out)
}

/// Writes an array of strings, or `null`.
pub(crate) fn nullable_text_list_value(o: &Option<Vec<String>>) -> (r: serde_json::Value)
    ensures
        json_of(r) == nullable_text_list(o.deep_view()),
{
    match o {
        Some(l) => text_list_value(l),
        None => null_value(),
    }
}

/// Writes an array of strings, unless it is empty.
pub(crate) fn filled_text_list_value(l: &Vec<String>) -> (r: Option<serde_json::Value>)
    ensures
        opt_json(r) == filled_text_list(l.deep_view()),
{
    if l.len() == 0 {
        None
    } else {
        Some(text_list_value(l))
    }
}

/// Writes an array of URLs, each by its serialization, or `null`.
pub(crate) fn nullable_url_list_value(o: &Option<Vec<url::Url>>) -> (r: serde_json::Value)
    ensures
        json_of(r) == nullable_text_list(crate::fields::opt_url_texts(*o)),
{
    match o {
        Some(l) => {
            let mut out: Vec<serde_json::Value> = Vec::new();
            let mut i: usize = 0;
            while i < l.len()
                invariant
                    i <= l@.len(),
                    out@.len() == i,
                    forall|j: int| 0 <= j < i ==> json_of(#[trigger] out@[j]) == Json::Text(url_text(l@[j])),
                decreases l@.len() - i,
            {
                out.push(text_value(owned(url_as_str(&l[i]))));
                i += 1;
            }
            proof {
                let model = crate::fields::url_texts(l@);
                assert(values_model(out@) =~= Seq::new(model.len(), |i: int| text_encoder()(model[i])));
            }
            array_value(out)
        },
        None => null_value(),
    }
}

/// Writes a map from text to text as an object.
pub(crate) fn text_map_value(m: &indexmap::IndexMap<String, String>) -> (r: serde_json::Value)
    ensures
        json_of(r) == text_map_json(text_entries(*m)),
{
    let items = text_map_entries(m);
    let ghost model = text_entries(*m);
    let mut out: Vec<(String, serde_json::Value)> = Vec::new();
    let mut i: usize = 0;
    while i < items.len()
        invariant
            i <= items@.len(),
            model == text_pairs(items@),
            out@.len() == i,
            forall|j: int| 0 <= j < i ==> (#[trigger] out@[j]).0@ == model[j].0 && json_of(out@[j].1) == Json::Text(model[j].1),
        decreases items@.len() - i,
    {
        out.push((items[i].0.clone(), text_value(items[i].1.clone())));
        i += 1;
    }
    proof {
        let written = owned_entries_model(out@);
        assert(written =~= Seq::new(model.len(), |i: int| (model[i].0, Json::Text(model[i].1))));
        assert forall|a: int, b: int| 0 <= a < b < written.len() implies (#[trigger] written[a]).0 != (#[trigger] written[b]).0 by {
            assert(model[a].0 != model[b].0);
        }
    }
    object_value(out)
}

/// Writes a map from text to text as an object, or `null`.
pub(crate) fn nullable_text_map_value(o: &Option<indexmap::IndexMap<String, String>>) -> (r: serde_json::Value)
    ensures
        json_of(r) == nullable_text_map(crate::fields::opt_text_entries(*o)),
{
    match o {
        Some(m) => text_map_value(m),
        None => null_value(),
    }
}

/// Writes a map from text to JSON values as an object.
pub(crate) fn value_map_value(m: &indexmap::IndexMap<String, serde_json::Value>) -> (r: serde_json::Value)
    ensures
        json_of(r) == Json::Object(value_entries_of(*m)),
{
    let items = value_map_entries(m);
    let ghost model = value_entries_of(*m);
    let mut out: Vec<(String, serde_json::Value)> = Vec::new();
    let mut i: usize = 0;
    while i < items.len()
        invariant
            i <= items@.len(),
            model == entries_model(items@),
            out@.len() == i,
            forall|j: int| 0 <= j < i ==> (#[trigger] out@[j]).0@ == model[j].0 && json_of(out@[j].1) == model[j].1,
        decreases items@.len() - i,
    {
        out.push((items[i].0.clone(), clone_value(items[i].1)));
        i += 1;
    }
    proof {
        let written = owned_entries_model(out@);
        assert(written =~= model);
    }
    object_value(out)
}

/// Writes a map from text to JSON values as an object, or `null`.
pub(crate) fn nullable_value_map_value(o: &Option<indexmap::IndexMap<String, serde_json::Value>>) -> (r: serde_json::Value)
    ensures
        json_of(r) == nullable_value_map(crate::fields::opt_value_entries(*o)),
{
    match o {
        Some(m) => value_map_value(m),
        None => null_value(),
    }
}

/// Writes a map from text to JSON values as an object, unless it is empty.
pub(crate) fn filled_value_map_value(m: &indexmap::IndexMap<String, serde_json::Value>) -> (r: Option<serde_json::Value>)
    ensures
        opt_json(r) == filled_value_map(value_entries_of(*m)),
{
    let v = value_map_value(m);
    if value_map_entries(m).len() == 0 {
        None
    } else {
        Some(v)
    }
}

} // verus!
