//! How the fields of a document are read from JSON: what a value stands for
//! under each field type, and what holds of a field that is absent.

use vstd::prelude::*;
use crate::digest::{check_digest, is_digest};
use crate::error::{invalid, violation, Pattern, Rule, ValidationError, Violation};
use crate::json::{
    clone_value, distinct_keys, entries_model, find, json_bool, json_i64, json_of, lookup,
    value_as_array, value_as_bool, value_as_i64, value_as_str, value_as_u64, value_entries,
    value_is_null, values_model, Json, JsonNumber,
};
use crate::media_type::{check_media_type, is_media_type};
use crate::ordered::{
    lemma_upsert_fresh, text_entries, text_map_insert, text_map_new, value_entries_of,
    value_map_insert, value_map_new,
};
use crate::reference::{parse_url, url_parsed, url_text};
use crate::text::{owned, str_eq};
use crate::timestamp::{rfc3339_instant, Timestamp};

verus! {

/// A result with its payload and its error taken by their models.
pub open spec fn deep<T: DeepView>(r: Result<T, ValidationError>) -> Result<T::V, Violation> {
    match r {
        Ok(t) => Ok(t.deep_view()),
        Err(e) => Err(e@),
    }
}

/// Reads every element with `f`, in order; the first failure is the result.
pub open spec fn try_map<A, B>(s: Seq<A>, f: spec_fn(A) -> Result<B, Violation>) -> Result<Seq<B>, Violation>
    decreases s.len(),
{
    if s.len() == 0 {
        Ok(Seq::empty())
    } else {
        match try_map(s.drop_last(), f) {
            Err(e) => Err(e),
            Ok(front) => match f(s.last()) {
                Err(e) => Err(e),
                Ok(b) => Ok(front.push(b)),
            },
        }
    }
}

/// `try_map` over one element more.
pub proof fn lemma_try_map_step<A, B>(s: Seq<A>, f: spec_fn(A) -> Result<B, Violation>, i: int)
    requires
        0 <= i < s.len(),
    ensures
        try_map(s.take(i + 1), f) == (match try_map(s.take(i), f) {
            Err(e) => Err(e),
            Ok(front) => match f(s[i]) {
                Err(e) => Err(e),
                Ok(b) => Ok(front.push(b)),
            },
        }),
        try_map(s.take(0), f) == Ok::<Seq<B>, Violation>(Seq::empty()),
        s.take(s.len() as int) == s,
{
    assert(s.take(i + 1).drop_last() =~= s.take(i));
    assert(s.take(i + 1).last() == s[i]);
    assert(s.take(s.len() as int) =~= s);
}

/// A failure on a prefix is the failure on the whole.
pub proof fn lemma_try_map_fails<A, B>(s: Seq<A>, f: spec_fn(A) -> Result<B, Violation>, i: int)
    requires
        0 <= i <= s.len(),
        try_map(s.take(i), f) is Err,
    ensures
        try_map(s, f) == try_map(s.take(i), f),
    decreases s.len() - i,
{
    if i < s.len() {
        lemma_try_map_step(s, f, i);
        lemma_try_map_fails(s, f, i + 1);
    } else {
        assert(s.take(i) =~= s);
    }
}

/// What `try_map` gives has one element for each element read.
pub proof fn lemma_try_map_len<A, B>(s: Seq<A>, f: spec_fn(A) -> Result<B, Violation>)
    ensures
        try_map(s, f) matches Ok(out) ==> out.len() == s.len() && forall|i: int|
            0 <= i < s.len() ==> f(#[trigger] s[i]) == Ok::<B, Violation>(out[i]),
    decreases s.len(),
{
    if s.len() > 0 {
        lemma_try_map_len(s.drop_last(), f);
        if try_map(s, f) is Ok {
            let out = try_map(s, f)->Ok_0;
            let front = try_map(s.drop_last(), f)->Ok_0;
            assert forall|i: int| 0 <= i < s.len() implies f(#[trigger] s[i]) == Ok::<B, Violation>(
                out[i],
            ) by {
                if i < s.len() - 1 {
                    assert(s.drop_last()[i] == s[i]);
                }
            }
        }
    }
}

/// Reading what was written for each element gives the elements back, where
/// it does so for each of them.
pub proof fn lemma_try_map_inverse<A, B>(l: Seq<B>, written: Seq<A>, decode: spec_fn(A) -> Result<B, Violation>)
    requires
        written.len() == l.len(),
        forall|i: int| 0 <= i < l.len() ==> decode(#[trigger] written[i]) == Ok::<B, Violation>(l[i]),
    ensures
        try_map(written, decode) == Ok::<Seq<B>, Violation>(l),
    decreases l.len(),
{
    if l.len() == 0 {
        assert(l =~= Seq::<B>::empty());
    } else {
        let front = written.drop_last();
        assert forall|i: int| 0 <= i < l.drop_last().len() implies decode(#[trigger] front[i]) == Ok::<B, Violation>(
            l.drop_last()[i],
        ) by {
            assert(front[i] == written[i]);
        }
        lemma_try_map_inverse(l.drop_last(), front, decode);
        assert(l.drop_last().push(l.last()) =~= l);
    }
}

/// A strict type finds nothing unknown where it knows every key.
pub proof fn lemma_all_known(entries: Seq<(Seq<char>, Json)>, shape: Shape)
    requires
        forall|i: int| 0 <= i < entries.len() ==> shape.knows((#[trigger] entries[i]).0),
    ensures
        first_unknown(entries, shape) is None,
    decreases entries.len(),
{
    if entries.len() > 0 {
        let rest = entries.drop_first();
        assert forall|i: int| 0 <= i < rest.len() implies shape.knows((#[trigger] rest[i]).0) by {
            assert(rest[i] == entries[i + 1]);
        }
        lemma_all_known(rest, shape);
    }
}

/// A field that has to be there.
pub open spec fn required<T>(o: Option<Json>, field: Seq<char>, decode: spec_fn(Json) -> Result<T, Violation>) -> Result<T, Violation> {
    match o {
        None => Err(violation(Rule::MissingField, field)),
        Some(j) => decode(j),
    }
}

/// A field that may be absent or `null`.
pub open spec fn optional<T>(o: Option<Json>, decode: spec_fn(Json) -> Result<T, Violation>) -> Result<Option<T>, Violation> {
    match o {
        None => Ok(None),
        Some(Json::Null) => Ok(None),
        Some(j) => match decode(j) {
            Ok(t) => Ok(Some(t)),
            Err(e) => Err(e),
        },
    }
}

/// A field that takes a default when it is absent.
pub open spec fn defaulted<T>(o: Option<Json>, default: T, decode: spec_fn(Json) -> Result<T, Violation>) -> Result<T, Violation> {
    match o {
        None => Ok(default),
        Some(j) => decode(j),
    }
}

/// The same failure, at another payload type.
pub open spec fn fail<A, B>(r: Result<A, Violation>) -> Result<B, Violation> {
    Err(r->Err_0)
}

/// A string.
pub open spec fn text_of(j: Json, field: Seq<char>) -> Result<Seq<char>, Violation> {
    match j {
        Json::Text(t) => Ok(t),
        _ => Err(violation(Rule::WrongType, field)),
    }
}

/// A string that matches the media type pattern.
pub open spec fn media_type_of(j: Json, field: Seq<char>) -> Result<Seq<char>, Violation> {
    match j {
        Json::Text(t) => if is_media_type(t) {
            Ok(t)
        } else {
            Err(violation(Rule::PatternMismatch(Pattern::MediaType), field))
        },
        _ => Err(violation(Rule::WrongType, field)),
    }
}

/// A string that matches the digest grammar.
pub open spec fn digest_of(j: Json, field: Seq<char>) -> Result<Seq<char>, Violation> {
    match j {
        Json::Text(t) => if is_digest(t) {
            Ok(t)
        } else {
            Err(violation(Rule::PatternMismatch(Pattern::Digest), field))
        },
        _ => Err(violation(Rule::WrongType, field)),
    }
}

/// An integer of the signed 64-bit range, negative ones included.
pub open spec fn i64_of(j: Json, field: Seq<char>) -> Result<i64, Violation> {
    match json_i64(j) {
        Some(n) => Ok(n),
        None => Err(violation(Rule::WrongType, field)),
    }
}

/// A truth value.
pub open spec fn bool_of(j: Json, field: Seq<char>) -> Result<bool, Violation> {
    match json_bool(j) {
        Some(b) => Ok(b),
        None => Err(violation(Rule::WrongType, field)),
    }
}

/// The schema version: the field is required and accepts the literal `2` alone.
pub open spec fn schema_version_of(o: Option<Json>) -> Result<u8, Violation> {
    match o {
        None => Err(violation(Rule::MissingField, "schemaVersion"@)),
        Some(j) => if j == Json::Number(JsonNumber::Integer(2)) {
            Ok(2u8)
        } else {
            Err(violation(Rule::InvalidSchemaVersion, "schemaVersion"@))
        },
    }
}

/// A string that `chrono` reads as a date and time.
pub open spec fn timestamp_of(j: Json, field: Seq<char>) -> Result<(i64, u32), Violation> {
    match j {
        Json::Text(t) => match rfc3339_instant(t) {
            Some(instant) => Ok(instant),
            None => Err(violation(Rule::InvalidTimestamp, field)),
        },
        _ => Err(violation(Rule::WrongType, field)),
    }
}

/// A string that `url` reads as an absolute URL; the result is its serialization.
pub open spec fn url_of(j: Json, field: Seq<char>) -> Result<Seq<char>, Violation> {
    match j {
        Json::Text(t) => match url_parsed(t) {
            Some(u) => Ok(u),
            None => Err(violation(Rule::InvalidUrl, field)),
        },
        _ => Err(violation(Rule::WrongType, field)),
    }
}

/// An entry of a map from text to text: the key is not empty, the value a string.
pub open spec fn text_entry_of(e: (Seq<char>, Json), field: Seq<char>) -> Result<(Seq<char>, Seq<char>), Violation> {
    if e.0.len() == 0 {
        Err(violation(Rule::InvalidAnnotationKey, field))
    } else {
        match e.1 {
            Json::Text(t) => Ok((e.0, t)),
            _ => Err(violation(Rule::WrongType, field)),
        }
    }
}

/// An entry of a map from text to any value: the key is not empty.
pub open spec fn value_entry_of(e: (Seq<char>, Json), field: Seq<char>) -> Result<(Seq<char>, Json), Violation> {
    if e.0.len() == 0 {
        Err(violation(Rule::InvalidAnnotationKey, field))
    } else {
        Ok(e)
    }
}

/// [`text_of`] at `field`, as a function of the value.
pub open spec fn text_decoder(field: Seq<char>) -> spec_fn(Json) -> Result<Seq<char>, Violation> {
    |j: Json| text_of(j, field)
}

/// [`media_type_of`] at `field`, as a function of the value.
pub open spec fn media_type_decoder(field: Seq<char>) -> spec_fn(Json) -> Result<Seq<char>, Violation> {
    |j: Json| media_type_of(j, field)
}

/// [`digest_of`] at `field`, as a function of the value.
pub open spec fn digest_decoder(field: Seq<char>) -> spec_fn(Json) -> Result<Seq<char>, Violation> {
    |j: Json| digest_of(j, field)
}

/// [`i64_of`] at `field`, as a function of the value.
pub open spec fn i64_decoder(field: Seq<char>) -> spec_fn(Json) -> Result<i64, Violation> {
    |j: Json| i64_of(j, field)
}

/// [`bool_of`] at `field`, as a function of the value.
pub open spec fn bool_decoder(field: Seq<char>) -> spec_fn(Json) -> Result<bool, Violation> {
    |j: Json| bool_of(j, field)
}

/// [`timestamp_of`] at `field`, as a function of the value.
pub open spec fn timestamp_decoder(field: Seq<char>) -> spec_fn(Json) -> Result<(i64, u32), Violation> {
    |j: Json| timestamp_of(j, field)
}

/// [`url_of`] at `field`, as a function of the value.
pub open spec fn url_decoder(field: Seq<char>) -> spec_fn(Json) -> Result<Seq<char>, Violation> {
    |j: Json| url_of(j, field)
}

/// [`text_entry_of`] at `field`, as a function of the entry.
pub open spec fn text_entry_decoder(field: Seq<char>) -> spec_fn((Seq<char>, Json)) -> Result<(Seq<char>, Seq<char>), Violation> {
    |e: (Seq<char>, Json)| text_entry_of(e, field)
}

/// [`value_entry_of`] at `field`, as a function of the entry.
pub open spec fn value_entry_decoder(field: Seq<char>) -> spec_fn((Seq<char>, Json)) -> Result<(Seq<char>, Json), Violation> {
    |e: (Seq<char>, Json)| value_entry_of(e, field)
}

/// An array of strings.
pub open spec fn text_list_of(j: Json, field: Seq<char>) -> Result<Seq<Seq<char>>, Violation> {
    match j {
        Json::Array(items) => try_map(items, text_decoder(field)),
        _ => Err(violation(Rule::WrongType, field)),
    }
}

/// An array whose elements `decode` reads.
pub open spec fn list_of<T>(j: Json, field: Seq<char>, decode: spec_fn(Json) -> Result<T, Violation>) -> Result<Seq<T>, Violation> {
    match j {
        Json::Array(items) => try_map(items, decode),
        _ => Err(violation(Rule::WrongType, field)),
    }
}

/// [`list_of`] at `field` with `decode`, as a function of the value.
pub open spec fn list_decoder<T>(field: Seq<char>, decode: spec_fn(Json) -> Result<T, Violation>) -> spec_fn(Json) -> Result<Seq<T>, Violation> {
    |j: Json| list_of(j, field, decode)
}

/// An array of URLs.
pub open spec fn url_list_of(j: Json, field: Seq<char>) -> Result<Seq<Seq<char>>, Violation> {
    match j {
        Json::Array(items) => try_map(items, url_decoder(field)),
        _ => Err(violation(Rule::WrongType, field)),
    }
}

/// An object from non-empty keys to strings: annotations, labels.
pub open spec fn text_map_of(j: Json, field: Seq<char>) -> Result<Seq<(Seq<char>, Seq<char>)>, Violation> {
    match j {
        Json::Object(entries) => try_map(entries, text_entry_decoder(field)),
        _ => Err(violation(Rule::WrongType, field)),
    }
}

/// An object from non-empty keys to any values: exposed ports, volumes.
pub open spec fn value_map_of(j: Json, field: Seq<char>) -> Result<Seq<(Seq<char>, Json)>, Violation> {
    match j {
        Json::Object(entries) => try_map(entries, value_entry_decoder(field)),
        _ => Err(violation(Rule::WrongType, field)),
    }
}

/// [`text_list_of`] at `field`, as a function of the value.
pub open spec fn text_list_decoder(field: Seq<char>) -> spec_fn(Json) -> Result<Seq<Seq<char>>, Violation> {
    |j: Json| text_list_of(j, field)
}

/// [`url_list_of`] at `field`, as a function of the value.
pub open spec fn url_list_decoder(field: Seq<char>) -> spec_fn(Json) -> Result<Seq<Seq<char>>, Violation> {
    |j: Json| url_list_of(j, field)
}

/// [`text_map_of`] at `field`, as a function of the value.
pub open spec fn text_map_decoder(field: Seq<char>) -> spec_fn(Json) -> Result<Seq<(Seq<char>, Seq<char>)>, Violation> {
    |j: Json| text_map_of(j, field)
}

/// [`value_map_of`] at `field`, as a function of the value.
pub open spec fn value_map_decoder(field: Seq<char>) -> spec_fn(Json) -> Result<Seq<(Seq<char>, Json)>, Violation> {
    |j: Json| value_map_of(j, field)
}

/// The serializations of a list of URLs.
pub open spec fn url_texts(urls: Seq<url::Url>) -> Seq<Seq<char>> {
    Seq::new(urls.len(), |i: int| url_text(urls[i]))
}

/// The serializations of an optional list of URLs.
pub open spec fn opt_url_texts(urls: Option<Vec<url::Url>>) -> Option<Seq<Seq<char>>> {
    match urls {
        Some(l) => Some(url_texts(l@)),
        None => None,
    }
}

/// The entries of an optional map from text to text.
pub open spec fn opt_text_entries(m: Option<indexmap::IndexMap<String, String>>) -> Option<Seq<(Seq<char>, Seq<char>)>> {
    match m {
        Some(m) => Some(text_entries(m)),
        None => None,
    }
}

/// The entries of an optional map from text to JSON values.
pub open spec fn opt_value_entries(m: Option<indexmap::IndexMap<String, serde_json::Value>>) -> Option<Seq<(Seq<char>, Json)>> {
    match m {
        Some(m) => Some(value_entries_of(m)),
        None => None,
    }
}

/// The value under `key`, unless it is absent or `null`.
pub(crate) fn find_present<'a>(items: &Vec<(&'a String, &'a serde_json::Value)>, key: &str) -> (r: Option<&'a serde_json::Value>)
    ensures
        match r {
            Some(v) => lookup(entries_model(items@), key@) == Some(json_of(*v)) && !(json_of(*v) is Null),
            None => lookup(entries_model(items@), key@) is None || lookup(entries_model(items@), key@) == Some(Json::Null),
        },
{
    match find(items, key) {
        Some(v) => if value_is_null(v) {
            None
        } else {
            Some(v)
        },
        None => None,
    }
}

/// Reads a string.
pub(crate) fn text_from(v: &serde_json::Value, field: &str) -> (r: Result<String, ValidationError>)
    ensures
        deep(r) == text_of(json_of(*v), field@),
{
    match value_as_str(v) {
        Some(t) => Ok(owned(t)),
        None => Err(invalid(Rule::WrongType, field)),
    }
}

/// Reads a string and holds it to the media type pattern.
pub(crate) fn media_type_from(v: &serde_json::Value, field: &str) -> (r: Result<String, ValidationError>)
    ensures
        deep(r) == media_type_of(json_of(*v), field@),
{
    match value_as_str(v) {
        Some(t) => if check_media_type(t) {
            Ok(owned(t))
        } else {
            Err(invalid(Rule::PatternMismatch(Pattern::MediaType), field))
        },
        None => Err(invalid(Rule::WrongType, field)),
    }
}

/// Reads a string and holds it to the digest grammar.
pub(crate) fn digest_from(v: &serde_json::Value, field: &str) -> (r: Result<String, ValidationError>)
    ensures
        deep(r) == digest_of(json_of(*v), field@),
{
    match value_as_str(v) {
        Some(t) => if check_digest(t) {
            Ok(owned(t))
        } else {
            Err(invalid(Rule::PatternMismatch(Pattern::Digest), field))
        },
        None => Err(invalid(Rule::WrongType, field)),
    }
}

/// Reads a signed 64-bit integer.
pub(crate) fn i64_from(v: &serde_json::Value, field: &str) -> (r: Result<i64, ValidationError>)
    ensures
        deep(r) == i64_of(json_of(*v), field@),
{
    match value_as_i64(v) {
        Some(n) => Ok(n),
        None => Err(invalid(Rule::WrongType, field)),
    }
}

/// Reads a truth value.
pub(crate) fn bool_from(v: &serde_json::Value, field: &str) -> (r: Result<bool, ValidationError>)
    ensures
        deep(r) == bool_of(json_of(*v), field@),
{
    match value_as_bool(v) {
        Some(b) => Ok(b),
        None => Err(invalid(Rule::WrongType, field)),
    }
}

/// Reads the schema version among the entries of a document.
pub(crate) fn schema_version_from(items: &Vec<(&String, &serde_json::Value)>) -> (r: Result<u8, ValidationError>)
    ensures
        deep(r) == schema_version_of(lookup(entries_model(items@), "schemaVersion"@)),
{
    match find(items, "schemaVersion") {
        None => Err(invalid(Rule::MissingField, "schemaVersion")),
        Some(v) => match value_as_u64(v) {
            Some(n) => if n == 2 {
                Ok(2u8)
            } else {
                Err(invalid(Rule::InvalidSchemaVersion, "schemaVersion"))
            },
            None => Err(invalid(Rule::InvalidSchemaVersion, "schemaVersion")),
        },
    }
}

/// Reads a date and time.
pub(crate) fn timestamp_from(v: &serde_json::Value, field: &str) -> (r: Result<Timestamp, ValidationError>)
    ensures
        deep(r) == timestamp_of(json_of(*v), field@),
{
    match value_as_str(v) {
        Some(t) => match Timestamp::parse(t) {
            Some(stamp) => Ok(stamp),
            None => Err(invalid(Rule::InvalidTimestamp, field)),
        },
        None => Err(invalid(Rule::WrongType, field)),
    }
}

/// Reads an array of strings.
pub(crate) fn text_list_from(v: &serde_json::Value, field: &str) -> (r: Result<Vec<String>, ValidationError>)
    ensures
        deep(r) == text_list_of(json_of(*v), field@),
{
    let items = match value_as_array(v) {
        Some(items) => items,
        None => {
            return Err(invalid(Rule::WrongType, field));
        },
    };
    let ghost model = values_model(items@);
    let ghost f = text_decoder(field@);
    let mut out: Vec<String> = Vec::new();
    let mut i: usize = 0;
    proof {
        assert(model.take(0) =~= Seq::<Json>::empty());
        assert(out.deep_view() =~= Seq::<Seq<char>>::empty());
    }
    while i < items.len()
        invariant
            i <= items@.len(),
            model == values_model(items@),
            f == text_decoder(field@),
            json_of(*v) == Json::Array(model),
            try_map(model.take(i as int), f) == Ok::<Seq<Seq<char>>, Violation>(out.deep_view()),
        decreases items@.len() - i,
    {
        proof {
            lemma_try_map_step(model, f, i as int);
        }
        match value_as_str(&items[i]) {
            Some(t) => {
                let ghost before = out.deep_view();
                out.push(owned(t));
                proof {
                    assert(out.deep_view() =~= before.push(t@));
                }
            },
            None => {
                proof {
                    lemma_try_map_fails(model, f, i as int + 1);
                }
                return Err(invalid(Rule::WrongType, field));
            },
        }
        i += 1;
    }
    proof {
        assert(model.take(i as int) =~= model);
    }
    Ok(out)
}

/// Reads an array of URLs.
pub(crate) fn url_list_from(v: &serde_json::Value, field: &str) -> (r: Result<Vec<url::Url>, ValidationError>)
    ensures
        match r {
            Ok(urls) => url_list_of(json_of(*v), field@) == Ok::<Seq<Seq<char>>, Violation>(url_texts(urls@)),
            Err(e) => url_list_of(json_of(*v), field@) == Err::<Seq<Seq<char>>, Violation>(e@),
        },
{
    let items = match value_as_array(v) {
        Some(items) => items,
        None => {
            return Err(invalid(Rule::WrongType, field));
        },
    };
    let ghost model = values_model(items@);
    let ghost f = url_decoder(field@);
    let mut out: Vec<url::Url> = Vec::new();
    let mut i: usize = 0;
    proof {
        assert(model.take(0) =~= Seq::<Json>::empty());
        assert(url_texts(out@) =~= Seq::<Seq<char>>::empty());
    }
    while i < items.len()
        invariant
            i <= items@.len(),
            model == values_model(items@),
            f == url_decoder(field@),
            json_of(*v) == Json::Array(model),
            try_map(model.take(i as int), f) == Ok::<Seq<Seq<char>>, Violation>(url_texts(out@)),
        decreases items@.len() - i,
    {
        proof {
            lemma_try_map_step(model, f, i as int);
        }
        let t = match value_as_str(&items[i]) {
            Some(t) => t,
            None => {
                proof {
                    lemma_try_map_fails(model, f, i as int + 1);
                }
                return Err(invalid(Rule::WrongType, field));
            },
        };
        match parse_url(t) {
            Ok(u) => {
                let ghost before = url_texts(out@);
                out.push(u);
                proof {
                    assert(url_texts(out@) =~= before.push(url_text(u)));
                }
            },
            Err(_) => {
                proof {
                    lemma_try_map_fails(model, f, i as int + 1);
                }
                return Err(invalid(Rule::InvalidUrl, field));
            },
        }
        i += 1;
    }
    proof {
        assert(model.take(i as int) =~= model);
    }
    Ok(out)
}

/// Reads an object from non-empty keys to strings.
pub(crate) fn text_map_from(v: &serde_json::Value, field: &str) -> (r: Result<indexmap::IndexMap<String, String>, ValidationError>)
    ensures
        match r {
            Ok(m) => text_map_of(json_of(*v), field@) == Ok::<Seq<(Seq<char>, Seq<char>)>, Violation>(text_entries(m)),
            Err(e) => text_map_of(json_of(*v), field@) == Err::<Seq<(Seq<char>, Seq<char>)>, Violation>(e@),
        },
{
    let items = match value_entries(v) {
        Some(items) => items,
        None => {
            return Err(invalid(Rule::WrongType, field));
        },
    };
    let ghost model = entries_model(items@);
    let ghost f = text_entry_decoder(field@);
    let mut out = text_map_new();
    let mut i: usize = 0;
    proof {
        assert(model.take(0) =~= Seq::<(Seq<char>, Json)>::empty());
    }
    while i < items.len()
        invariant
            i <= items@.len(),
            model == entries_model(items@),
            distinct_keys(model),
            f == text_entry_decoder(field@),
            json_of(*v) == Json::Object(model),
            try_map(model.take(i as int), f) == Ok::<Seq<(Seq<char>, Seq<char>)>, Violation>(text_entries(out)),
        decreases items@.len() - i,
    {
        proof {
            lemma_try_map_step(model, f, i as int);
            lemma_try_map_len(model.take(i as int), f);
        }
        let key = items[i].0;
        if key.as_str().unicode_len() == 0 {
            proof {
                lemma_try_map_fails(model, f, i as int + 1);
            }
            return Err(invalid(Rule::InvalidAnnotationKey, field));
        }
        match value_as_str(items[i].1) {
            Some(t) => {
                proof {
                    let held = text_entries(out);
                    assert forall|j: int| 0 <= j < held.len() implies (#[trigger] held[j]).0 != key@ by {
                        assert(model.take(i as int)[j] == model[j]);
                        assert(f(model[j]) == Ok::<(Seq<char>, Seq<char>), Violation>(held[j]));
                        assert(model[j].0 != model[i as int].0);
                    }
                    lemma_upsert_fresh(held, key@, t@);
                }
                text_map_insert(&mut out, key.clone(), owned(t));
            },
            None => {
                proof {
                    lemma_try_map_fails(model, f, i as int + 1);
                }
                return Err(invalid(Rule::WrongType, field));
            },
        }
        i += 1;
    }
    proof {
        assert(model.take(i as int) =~= model);
    }
    Ok(out)
}

/// Reads an object from non-empty keys to any values.
pub(crate) fn value_map_from(v: &serde_json::Value, field: &str) -> (r: Result<indexmap::IndexMap<String, serde_json::Value>, ValidationError>)
    ensures
        match r {
            Ok(m) => value_map_of(json_of(*v), field@) == Ok::<Seq<(Seq<char>, Json)>, Violation>(value_entries_of(m)),
            Err(e) => value_map_of(json_of(*v), field@) == Err::<Seq<(Seq<char>, Json)>, Violation>(e@),
        },
{
    let items = match value_entries(v) {
        Some(items) => items,
        None => {
            return Err(invalid(Rule::WrongType, field));
        },
    };
    let ghost model = entries_model(items@);
    let ghost f = value_entry_decoder(field@);
    let mut out = value_map_new();
    let mut i: usize = 0;
    proof {
        assert(model.take(0) =~= Seq::<(Seq<char>, Json)>::empty());
    }
    while i < items.len()
        invariant
            i <= items@.len(),
            model == entries_model(items@),
            distinct_keys(model),
            f == value_entry_decoder(field@),
            json_of(*v) == Json::Object(model),
            try_map(model.take(i as int), f) == Ok::<Seq<(Seq<char>, Json)>, Violation>(value_entries_of(out)),
        decreases items@.len() - i,
    {
        proof {
            lemma_try_map_step(model, f, i as int);
            lemma_try_map_len(model.take(i as int), f);
        }
        let key = items[i].0;
        if key.as_str().unicode_len() == 0 {
            proof {
                lemma_try_map_fails(model, f, i as int + 1);
            }
            return Err(invalid(Rule::InvalidAnnotationKey, field));
        }
        proof {
            let held = value_entries_of(out);
            assert forall|j: int| 0 <= j < held.len() implies (#[trigger] held[j]).0 != key@ by {
                assert(model.take(i as int)[j] == model[j]);
                assert(f(model[j]) == Ok::<(Seq<char>, Json), Violation>(held[j]));
                assert(model[j].0 != model[i as int].0);
            }
            lemma_upsert_fresh(held, key@, json_of(*items@[i as int].1));
        }
        value_map_insert(&mut out, key.clone(), clone_value(items[i].1));
        i += 1;
    }
    proof {
        assert(model.take(i as int) =~= model);
    }
    Ok(out)
}

/// The document types that take no fields but their own.
#[derive(Clone, Copy, Debug, PartialEq, Eq, Structural)]
pub enum Shape {
    /// A content descriptor.
    Descriptor,
    /// An image index.
    Index,
    /// An image manifest.
    Manifest,
    /// An image configuration.
    Config,
}

impl Shape {
    /// Whether a document of this type has a field of this name.
    pub open spec fn knows(self, key: Seq<char>) -> bool {
        match self {
            Shape::Descriptor => key == "mediaType"@ || key == "size"@ || key == "digest"@ || key
                == "urls"@ || key == "data"@ || key == "artifactType"@ || key == "annotations"@,
            Shape::Index => key == "schemaVersion"@ || key == "mediaType"@ || key == "artifactType"@
                || key == "subject"@ || key == "manifests"@ || key == "annotations"@,
            Shape::Manifest => key == "schemaVersion"@ || key == "mediaType"@ || key
                == "artifactType"@ || key == "config"@ || key == "subject"@ || key == "layers"@ || key
                == "annotations"@,
            Shape::Config => key == "created"@ || key == "author"@ || key == "architecture"@ || key
                == "os"@ || key == "os.version"@ || key == "os.features"@ || key == "variant"@ || key
                == "config"@ || key == "rootfs"@ || key == "history"@,
        }
    }

    /// Whether a document of this type has a field of this name.
    pub fn has_field(self, key: &str) -> (r: bool)
        ensures
            r == self.knows(key@),
    {
        match self {
            Shape::Descriptor => str_eq(key, "mediaType") || str_eq(key, "size") || str_eq(key, "digest")
                || str_eq(key, "urls") || str_eq(key, "data") || str_eq(key, "artifactType") || str_eq(
                key,
                "annotations",
            ),
            Shape::Index => str_eq(key, "schemaVersion") || str_eq(key, "mediaType") || str_eq(
                key,
                "artifactType",
            ) || str_eq(key, "subject") || str_eq(key, "manifests") || str_eq(key, "annotations"),
            Shape::Manifest => str_eq(key, "schemaVersion") || str_eq(key, "mediaType") || str_eq(
                key,
                "artifactType",
            ) || str_eq(key, "config") || str_eq(key, "subject") || str_eq(key, "layers") || str_eq(
                key,
                "annotations",
            ),
            Shape::Config => str_eq(key, "created") || str_eq(key, "author") || str_eq(key, "architecture")
                || str_eq(key, "os") || str_eq(key, "os.version") || str_eq(key, "os.features") || str_eq(
                key,
                "variant",
            ) || str_eq(key, "config") || str_eq(key, "rootfs") || str_eq(key, "history"),
        }
    }
}

/// The first key, in document order, that the type does not know.
pub open spec fn first_unknown(entries: Seq<(Seq<char>, Json)>, shape: Shape) -> Option<Seq<char>>
    decreases entries.len(),
{
    if entries.len() == 0 {
        None
    } else if !shape.knows(entries[0].0) {
        Some(entries[0].0)
    } else {
        first_unknown(entries.drop_first(), shape)
    }
}

/// A strict type rejects the first field that it does not know, by its name.
pub open spec fn strict(entries: Seq<(Seq<char>, Json)>, shape: Shape) -> Result<(), Violation> {
    match first_unknown(entries, shape) {
        Some(key) => Err(violation(Rule::UnknownField, key)),
        None => Ok(()),
    }
}

/// Rejects the first field that the type does not know.
pub(crate) fn reject_unknown(items: &Vec<(&String, &serde_json::Value)>, shape: Shape) -> (r: Result<(), ValidationError>)
    ensures
        match r {
            Ok(_) => strict(entries_model(items@), shape) is Ok,
            Err(e) => strict(entries_model(items@), shape) == Err::<(), Violation>(e@),
        },
{
    let ghost es = entries_model(items@);
    let mut i: usize = 0;
    proof {
        assert(es.skip(0) =~= es);
    }
    while i < items.len()
        invariant
            i <= items@.len(),
            es == entries_model(items@),
            first_unknown(es, shape) == first_unknown(es.skip(i as int), shape),
        decreases items@.len() - i,
    {
        proof {
            assert(es.skip(i as int)[0] == es[i as int]);
            assert(es.skip(i as int).drop_first() =~= es.skip(i as int + 1));
        }
        if !shape.has_field(items[i].0.as_str()) {
            return Err(invalid(Rule::UnknownField, items[i].0.as_str()));
        }
        i += 1;
    }
    Ok(())
}

/// Reads a required string.
pub(crate) fn required_text(items: &Vec<(&String, &serde_json::Value)>, key: &str) -> (r: Result<String, ValidationError>)
    ensures
        deep(r) == required(lookup(entries_model(items@), key@), key@, text_decoder(key@)),
{
    match find(items, key) {
        Some(v) => text_from(v, key),
        None => Err(invalid(Rule::MissingField, key)),
    }
}

/// Reads an optional string.
pub(crate) fn optional_text(items: &Vec<(&String, &serde_json::Value)>, key: &str) -> (r: Result<Option<String>, ValidationError>)
    ensures
        deep(r) == optional(lookup(entries_model(items@), key@), text_decoder(key@)),
{
    match find_present(items, key) {
        Some(v) => match text_from(v, key) {
            Ok(t) => Ok(Some(t)),
            Err(e) => Err(e),
        },
        None => Ok(None),
    }
}

/// Reads a required media type.
pub(crate) fn required_media_type(items: &Vec<(&String, &serde_json::Value)>, key: &str) -> (r: Result<String, ValidationError>)
    ensures
        deep(r) == required(lookup(entries_model(items@), key@), key@, media_type_decoder(key@)),
{
    match find(items, key) {
        Some(v) => media_type_from(v, key),
        None => Err(invalid(Rule::MissingField, key)),
    }
}

/// Reads an optional media type.
pub(crate) fn optional_media_type(items: &Vec<(&String, &serde_json::Value)>, key: &str) -> (r: Result<Option<String>, ValidationError>)
    ensures
        deep(r) == optional(lookup(entries_model(items@), key@), media_type_decoder(key@)),
{
    match find_present(items, key) {
        Some(v) => match media_type_from(v, key) {
            Ok(t) => Ok(Some(t)),
            Err(e) => Err(e),
        },
        None => Ok(None),
    }
}

/// Reads a required digest string.
pub(crate) fn required_digest(items: &Vec<(&String, &serde_json::Value)>, key: &str) -> (r: Result<String, ValidationError>)
    ensures
        deep(r) == required(lookup(entries_model(items@), key@), key@, digest_decoder(key@)),
{
    match find(items, key) {
        Some(v) => digest_from(v, key),
        None => Err(invalid(Rule::MissingField, key)),
    }
}

/// Reads a required signed 64-bit integer.
pub(crate) fn required_i64(items: &Vec<(&String, &serde_json::Value)>, key: &str) -> (r: Result<i64, ValidationError>)
    ensures
        deep(r) == required(lookup(entries_model(items@), key@), key@, i64_decoder(key@)),
{
    match find(items, key) {
        Some(v) => i64_from(v, key),
        None => Err(invalid(Rule::MissingField, key)),
    }
}

/// Reads a truth value that is `false` when absent.
pub(crate) fn flag(items: &Vec<(&String, &serde_json::Value)>, key: &str) -> (r: Result<bool, ValidationError>)
    ensures
        deep(r) == defaulted(lookup(entries_model(items@), key@), false, bool_decoder(key@)),
{
    match find(items, key) {
        Some(v) => bool_from(v, key),
        None => Ok(false),
    }
}

/// Reads an optional date and time.
pub(crate) fn optional_timestamp(items: &Vec<(&String, &serde_json::Value)>, key: &str) -> (r: Result<Option<Timestamp>, ValidationError>)
    ensures
        deep(r) == optional(lookup(entries_model(items@), key@), timestamp_decoder(key@)),
{
    match find_present(items, key) {
        Some(v) => match timestamp_from(v, key) {
            Ok(t) => Ok(Some(t)),
            Err(e) => Err(e),
        },
        None => Ok(None),
    }
}

/// Reads a required array of strings.
pub(crate) fn required_text_list(items: &Vec<(&String, &serde_json::Value)>, key: &str) -> (r: Result<Vec<String>, ValidationError>)
    ensures
        deep(r) == required(lookup(entries_model(items@), key@), key@, text_list_decoder(key@)),
{
    match find(items, key) {
        Some(v) => text_list_from(v, key),
        None => Err(invalid(Rule::MissingField, key)),
    }
}

/// Reads an array of strings that is empty when absent.
pub(crate) fn defaulted_text_list(items: &Vec<(&String, &serde_json::Value)>, key: &str) -> (r: Result<Vec<String>, ValidationError>)
    ensures
        deep(r) == defaulted(lookup(entries_model(items@), key@), Seq::<Seq<char>>::empty(), text_list_decoder(key@)),
{
    match find(items, key) {
        Some(v) => text_list_from(v, key),
        None => {
            let out: Vec<String> = Vec::new();
            proof {
                assert(out.deep_view() =~= Seq::<Seq<char>>::empty());
            }
            Ok(out)
        },
    }
}

/// Reads an optional array of strings.
pub(crate) fn optional_text_list(items: &Vec<(&String, &serde_json::Value)>, key: &str) -> (r: Result<Option<Vec<String>>, ValidationError>)
    ensures
        deep(r) == optional(lookup(entries_model(items@), key@), text_list_decoder(key@)),
{
    match find_present(items, key) {
        Some(v) => match text_list_from(v, key) {
            Ok(t) => Ok(Some(t)),
            Err(e) => Err(e),
        },
        None => Ok(None),
    }
}

/// Reads an optional array of URLs.
pub(crate) fn optional_url_list(items: &Vec<(&String, &serde_json::Value)>, key: &str) -> (r: Result<Option<Vec<url::Url>>, ValidationError>)
    ensures
        match r {
            Ok(urls) => optional(lookup(entries_model(items@), key@), url_list_decoder(key@)) == Ok::<Option<Seq<Seq<char>>>, Violation>(opt_url_texts(urls)),
            Err(e) => optional(lookup(entries_model(items@), key@), url_list_decoder(key@)) == Err::<Option<Seq<Seq<char>>>, Violation>(e@),
        },
{
    match find_present(items, key) {
        Some(v) => match url_list_from(v, key) {
            Ok(t) => Ok(Some(t)),
            Err(e) => Err(e),
        },
        None => Ok(None),
    }
}

/// Reads a map from text to text that is empty when absent.
pub(crate) fn defaulted_text_map(items: &Vec<(&String, &serde_json::Value)>, key: &str) -> (r: Result<indexmap::IndexMap<String, String>, ValidationError>)
    ensures
        match r {
            Ok(m) => defaulted(lookup(entries_model(items@), key@), Seq::<(Seq<char>, Seq<char>)>::empty(), text_map_decoder(key@)) == Ok::<Seq<(Seq<char>, Seq<char>)>, Violation>(text_entries(m)),
            Err(e) => defaulted(lookup(entries_model(items@), key@), Seq::<(Seq<char>, Seq<char>)>::empty(), text_map_decoder(key@)) == Err::<Seq<(Seq<char>, Seq<char>)>, Violation>(e@),
        },
{
    match find(items, key) {
        Some(v) => text_map_from(v, key),
        None => Ok(text_map_new()),
    }
}

/// Reads an optional map from text to text.
pub(crate) fn optional_text_map(items: &Vec<(&String, &serde_json::Value)>, key: &str) -> (r: Result<Option<indexmap::IndexMap<String, String>>, ValidationError>)
    ensures
        match r {
            Ok(m) => optional(lookup(entries_model(items@), key@), text_map_decoder(key@)) == Ok::<Option<Seq<(Seq<char>, Seq<char>)>>, Violation>(opt_text_entries(m)),
            Err(e) => optional(lookup(entries_model(items@), key@), text_map_decoder(key@)) == Err::<Option<Seq<(Seq<char>, Seq<char>)>>, Violation>(e@),
        },
{
    match find_present(items, key) {
        Some(v) => match text_map_from(v, key) {
            Ok(t) => Ok(Some(t)),
            Err(e) => Err(e),
        },
        None => Ok(None),
    }
}

/// Reads a map from text to any values that is empty when absent.
pub(crate) fn defaulted_value_map(items: &Vec<(&String, &serde_json::Value)>, key: &str) -> (r: Result<indexmap::IndexMap<String, serde_json::Value>, ValidationError>)
    ensures
        match r {
            Ok(m) => defaulted(lookup(entries_model(items@), key@), Seq::<(Seq<char>, Json)>::empty(), value_map_decoder(key@)) == Ok::<Seq<(Seq<char>, Json)>, Violation>(value_entries_of(m)),
            Err(e) => defaulted(lookup(entries_model(items@), key@), Seq::<(Seq<char>, Json)>::empty(), value_map_decoder(key@)) == Err::<Seq<(Seq<char>, Json)>, Violation>(e@),
        },
{
    match find(items, key) {
        Some(v) => value_map_from(v, key),
        None => Ok(value_map_new()),
    }
}

/// Reads an optional map from text to any values.
pub(crate) fn optional_value_map(items: &Vec<(&String, &serde_json::Value)>, key: &str) -> (r: Result<Option<indexmap::IndexMap<String, serde_json::Value>>, ValidationError>)
    ensures
        match r {
            Ok(m) => optional(lookup(entries_model(items@), key@), value_map_decoder(key@)) == Ok::<Option<Seq<(Seq<char>, Json)>>, Violation>(opt_value_entries(m)),
            Err(e) => optional(lookup(entries_model(items@), key@), value_map_decoder(key@)) == Err::<Option<Seq<(Seq<char>, Json)>>, Violation>(e@),
        },
{
    match find_present(items, key) {
        Some(v) => match value_map_from(v, key) {
            Ok(t) => Ok(Some(t)),
            Err(e) => Err(e),
        },
        None => Ok(None),
    }
}

} // verus!
