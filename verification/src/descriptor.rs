//! Content descriptors: typed references to blobs.

use vstd::prelude::*;
use crate::digest::{is_digest, Digest};
use crate::emit::{
    nullable_text, nullable_text_list, nullable_text_value, nullable_url_list_value, object_json,
    text_map_json, text_map_value, Fields,
};
use crate::error::{invalid, violation, Failure, OCIDirError, Rule, ValidationError, Violation};
use crate::fields::{
    deep, defaulted, defaulted_text_map, digest_decoder, fail, find_present, i64_decoder,
    lemma_try_map_fails, lemma_try_map_step, list_of, media_type_decoder, opt_url_texts, optional,
    optional_media_type, optional_url_list, reject_unknown, required, required_digest, required_i64,
    required_media_type, strict, text_map_decoder, try_map, url_list_decoder, Shape,
};
use crate::inline::{base64_decoder, base64_text, opt_bytes, Base64};
use crate::json::{
    array_value, distinct_keys, int_value, json_of, lookup, null_value, text_value, value_as_array,
    value_entries, values_model, Json, JsonNumber,
};
use crate::ordered::text_entries;
use crate::text::{copy_bytes, opt_text, spelled};

verus! {

/// A typed reference to a blob.
#[derive(Debug)]
pub struct ContentDescriptor {
    /// The media type of the referenced object.
    pub media_type: String,
    /// The size in bytes of the referenced object.
    pub size: i64,
    /// The digest of the object, `algorithm:encoded`.
    pub digest: String,
    /// URLs from which the object may be downloaded.
    pub urls: Option<Vec<url::Url>>,
    /// The object itself, embedded.
    pub data: Option<Base64>,
    /// The media type of the artifact.
    pub artifact_type: Option<String>,
    /// Annotations, under non-empty keys.
    pub annotations: indexmap::IndexMap<String, String>,
}

/// What a content descriptor holds.
pub struct DescriptorModel {
    pub media_type: Seq<char>,
    pub size: i64,
    pub digest: Seq<char>,
    /// The serializations of the URLs.
    pub urls: Option<Seq<Seq<char>>>,
    pub data: Option<Seq<u8>>,
    pub artifact_type: Option<Seq<char>>,
    pub annotations: Seq<(Seq<char>, Seq<char>)>,
}

impl DeepView for ContentDescriptor {
    type V = DescriptorModel;

    open spec fn deep_view(&self) -> DescriptorModel {
        DescriptorModel {
            media_type: self.media_type@,
            size: self.size,
            digest: self.digest@,
            urls: opt_url_texts(self.urls),
            data: opt_bytes(self.data),
            artifact_type: opt_text(self.artifact_type),
            annotations: text_entries(self.annotations),
        }
    }
}

/// What a JSON value stands for as a content descriptor at `field`. The
/// value is an object with no fields but the descriptor's own; the first
/// field in the order below that is missing or ill-formed decides the failure.
pub open spec fn descriptor_of(j: Json, field: Seq<char>) -> Result<DescriptorModel, Violation> {
    match j {
        Json::Object(es) => {
            let known = strict(es, Shape::Descriptor);
            let media_type = required(lookup(es, "mediaType"@), "mediaType"@, media_type_decoder("mediaType"@));
            let size = required(lookup(es, "size"@), "size"@, i64_decoder("size"@));
            let digest = required(lookup(es, "digest"@), "digest"@, digest_decoder("digest"@));
            let urls = optional(lookup(es, "urls"@), url_list_decoder("urls"@));
            let data = optional(lookup(es, "data"@), base64_decoder("data"@));
            let artifact_type = optional(lookup(es, "artifactType"@), media_type_decoder("artifactType"@));
            let annotations = defaulted(
                lookup(es, "annotations"@),
                Seq::<(Seq<char>, Seq<char>)>::empty(),
                text_map_decoder("annotations"@),
            );
            if known is Err {
                fail(known)
            } else if media_type is Err {
                fail(media_type)
            } else if size is Err {
                fail(size)
            } else if digest is Err {
                fail(digest)
            } else if urls is Err {
                fail(urls)
            } else if data is Err {
                fail(data)
            } else if artifact_type is Err {
                fail(artifact_type)
            } else if annotations is Err {
                fail(annotations)
            } else {
                Ok(
                    DescriptorModel {
                        media_type: media_type->Ok_0,
                        size: size->Ok_0,
                        digest: digest->Ok_0,
                        urls: urls->Ok_0,
                        data: data->Ok_0,
                        artifact_type: artifact_type->Ok_0,
                        annotations: annotations->Ok_0,
                    },
                )
            }
        },
        _ => Err(violation(Rule::WrongType, field)),
    }
}

/// [`descriptor_of`] at `field`, as a function of the value.
pub open spec fn descriptor_decoder(field: Seq<char>) -> spec_fn(Json) -> Result<DescriptorModel, Violation> {
    |j: Json| descriptor_of(j, field)
}

/// Inline data as a string of base64 text, or `null`.
pub open spec fn nullable_data(o: Option<Seq<u8>>) -> Json {
    match o {
        Some(bytes) => Json::Text(base64_text(bytes)),
        None => Json::Null,
    }
}

/// The fields that a content descriptor is written with: all of them, an
/// absent value as `null`.
pub open spec fn descriptor_fields(d: DescriptorModel) -> Seq<(Seq<char>, Option<Json>)> {
    seq![
        ("mediaType"@, Some(Json::Text(d.media_type))),
        ("size"@, Some(Json::Number(JsonNumber::Integer(d.size as int)))),
        ("digest"@, Some(Json::Text(d.digest))),
        ("urls"@, Some(nullable_text_list(d.urls))),
        ("data"@, Some(nullable_data(d.data))),
        ("artifactType"@, Some(nullable_text(d.artifact_type))),
        ("annotations"@, Some(text_map_json(d.annotations))),
    ]
}

/// The JSON form of a content descriptor.
pub open spec fn descriptor_json(d: DescriptorModel) -> Json {
    object_json(descriptor_fields(d))
}

/// [`descriptor_json`], as a function.
pub open spec fn descriptor_encoder() -> spec_fn(DescriptorModel) -> Json {
    |d: DescriptorModel| descriptor_json(d)
}

/// The fields of a content descriptor have distinct names.
pub proof fn lemma_descriptor_keys(d: DescriptorModel)
    ensures
        distinct_keys(descriptor_fields(d)),
{
    reveal_strlit("mediaType");
    reveal_strlit("size");
    reveal_strlit("digest");
    reveal_strlit("urls");
    reveal_strlit("data");
    reveal_strlit("artifactType");
    reveal_strlit("annotations");
    assert(spelled("mediaType"@, 9, 'm', 'e'));
    assert(spelled("size"@, 4, 's', 'i'));
    assert(spelled("digest"@, 6, 'd', 'i'));
    assert(spelled("urls"@, 4, 'u', 'r'));
    assert(spelled("data"@, 4, 'd', 'a'));
    assert(spelled("artifactType"@, 12, 'a', 'r'));
    assert(spelled("annotations"@, 11, 'a', 'n'));
}

/// Where the blob of a descriptor is had from.
#[derive(Debug)]
pub enum Resolution {
    /// From the descriptor itself: these are the bytes.
    Inline(Vec<u8>),
    /// From the file of this digest.
    File(Digest),
}

/// Where the blob of a descriptor is had from; a file by its digest string.
pub enum ResolutionModel {
    Inline(Seq<u8>),
    File(Seq<char>),
}

impl DeepView for Resolution {
    type V = ResolutionModel;

    open spec fn deep_view(&self) -> ResolutionModel {
        match *self {
            Resolution::Inline(bytes) => ResolutionModel::Inline(bytes@),
            Resolution::File(digest) => ResolutionModel::File(digest@),
        }
    }
}

/// Where the blob of a descriptor is had from: inline data comes first, and
/// with it the digest is not even looked at; without it the digest names the
/// file, and has to be one.
pub open spec fn resolution_of(d: DescriptorModel) -> Result<ResolutionModel, Failure> {
    match d.data {
        Some(bytes) => Ok(ResolutionModel::Inline(bytes)),
        None => if is_digest(d.digest) {
            Ok(ResolutionModel::File(d.digest))
        } else {
            Err(Failure::MalformedDigest(d.digest))
        },
    }
}

impl ContentDescriptor {
    /// Decides where the blob of the descriptor is had from.
    pub fn resolve(&self) -> (r: Result<Resolution, OCIDirError>)
        ensures
            match r {
                Ok(resolution) => resolution_of(self.deep_view()) == Ok::<ResolutionModel, Failure>(
                    resolution.deep_view(),
                ),
                Err(e) => resolution_of(self.deep_view()) == Err::<ResolutionModel, Failure>(e@),
            },
    {
        match &self.data {
            Some(data) => Ok(Resolution::Inline(copy_bytes(data.as_bytes()))),
            None => match Digest::parse(self.digest.as_str()) {
                Ok(digest) => Ok(Resolution::File(digest)),
                Err(e) => Err(e),
            },
        }
    }

    /// Reads a content descriptor from the JSON value at `field`.
    pub fn from_json(v: &serde_json::Value, field: &str) -> (r: Result<ContentDescriptor, ValidationError>)
        ensures
            deep(r) == descriptor_of(json_of(*v), field@),
    {
        let items = match value_entries(v) {
            Some(items) => items,
            None => {
                return Err(invalid(Rule::WrongType, field));
            },
        };
        match reject_unknown(&items, Shape::Descriptor) {
            Ok(_) => {},
            Err(e) => {
                return Err(e);
            },
        }
        let media_type = match required_media_type(&items, "mediaType") {
            Ok(x) => x,
            Err(e) => {
                return Err(e);
            },
        };
        let size = match required_i64(&items, "size") {
            Ok(x) => x,
            Err(e) => {
                return Err(e);
            },
        };
        let digest = match required_digest(&items, "digest") {
            Ok(x) => x,
            Err(e) => {
                return Err(e);
            },
        };
        let urls = match optional_url_list(&items, "urls") {
            Ok(x) => x,
            Err(e) => {
                return Err(e);
            },
        };
        let data = match find_present(&items, "data") {
            Some(x) => match Base64::deserialize(x, "data") {
                Ok(b) => Some(b),
                Err(e) => {
                    return Err(e);
                },
            },
            None => None,
        };
        let artifact_type = match optional_media_type(&items, "artifactType") {
            Ok(x) => x,
            Err(e) => {
                return Err(e);
            },
        };
        let annotations = match defaulted_text_map(&items, "annotations") {
            Ok(x) => x,
            Err(e) => {
                return Err(e);
            },
        };
        Ok(ContentDescriptor { media_type, size, digest, urls, data, artifact_type, annotations })
    }

    /// Reads an array of content descriptors from the JSON value at `field`.
    pub fn list_from_json(v: &serde_json::Value, field: &str) -> (r: Result<Vec<ContentDescriptor>, ValidationError>)
        ensures
            deep(r) == list_of(json_of(*v), field@, descriptor_decoder(field@)),
    {
        let items = match value_as_array(v) {
            Some(items) => items,
            None => {
                return Err(invalid(Rule::WrongType, field));
            },
        };
        let ghost model = values_model(items@);
        let ghost f = descriptor_decoder(field@);
        let mut out: Vec<ContentDescriptor> = Vec::new();
        let mut i: usize = 0;
        proof {
            assert(model.take(0) =~= Seq::<Json>::empty());
            assert(out.deep_view() =~= Seq::<DescriptorModel>::empty());
        }
        while i < items.len()
            invariant
                i <= items@.len(),
                model == values_model(items@),
                f == descriptor_decoder(field@),
                json_of(*v) == Json::Array(model),
                try_map(model.take(i as int), f) == Ok::<Seq<DescriptorModel>, Violation>(out.deep_view()),
            decreases items@.len() - i,
        {
            proof {
                lemma_try_map_step(model, f, i as int);
            }
            match ContentDescriptor::from_json(&items[i], field) {
                Ok(d) => {
                    let ghost before = out.deep_view();
                    out.push(d);
                    proof {
                        assert(out.deep_view() =~= before.push(d.deep_view()));
                    }
                },
                Err(e) => {
                    proof {
                        lemma_try_map_fails(model, f, i as int + 1);
                    }
                    return Err(e);
                },
            }
            i += 1;
        }
        proof {
            assert(model.take(i as int) =~= model);
        }
        Ok(out)
    }

    /// Writes the descriptor as a JSON value.
    pub fn to_json(&self) -> (r: serde_json::Value)
        ensures
            json_of(r) == descriptor_json(self.deep_view()),
    {
        let data = match &self.data {
            Some(b) => b.serialize(),
            None => null_value(),
        };
        let fields = Fields::new().put("mediaType", text_value(self.media_type.clone())).put(
            "size",
            int_value(self.size),
        ).put("digest", text_value(self.digest.clone())).put(
            "urls",
            nullable_url_list_value(&self.urls),
        ).put("data", data).put("artifactType", nullable_text_value(&self.artifact_type)).put(
            "annotations",
            text_map_value(&self.annotations),
        );
        proof {
            lemma_descriptor_keys(self.deep_view());
            assert(fields.table() =~= descriptor_fields(self.deep_view()));
        }
        fields.finish()
    }

    /// Writes a list of descriptors as a JSON array.
    pub fn list_to_json(list: &Vec<ContentDescriptor>) -> (r: serde_json::Value)
        ensures
            json_of(r) == crate::emit::list_json(list.deep_view(), descriptor_encoder()),
    {
        let mut out: Vec<serde_json::Value> = Vec::new();
        let mut i: usize = 0;
        while i < list.len()
            invariant
                i <= list@.len(),
                out@.len() == i,
                forall|j: int| 0 <= j < i ==> json_of(#[trigger] out@[j]) == descriptor_json(list@[j].deep_view()),
            decreases list@.len() - i,
        {
            out.push(list[i].to_json());
            i += 1;
        }
        proof {
            let model = list.deep_view();
            assert(values_model(out@) =~= Seq::new(model.len(), |i: int| descriptor_encoder()(model[i])));
        }
        array_value(out)
    }
}

} // verus!
