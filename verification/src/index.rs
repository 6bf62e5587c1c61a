//! The image index: the entry point of a layout, with its manifest
//! descriptors and their platforms.

use vstd::prelude::*;
use crate::descriptor::{descriptor_decoder, descriptor_json, ContentDescriptor, DescriptorModel};
use crate::emit::{
    filled_text_list, filled_text_list_value, list_json, nullable_text, nullable_text_list,
    nullable_text_value, nullable_url_list_value, object_json, some_text, some_text_value,
    text_map_json, text_map_value, Fields,
};
use crate::error::{invalid, violation, DocumentError, Rule, ValidationError, Violation};
use crate::fields::{
    deep, defaulted, defaulted_text_list, defaulted_text_map, digest_decoder, fail, find_present,
    i64_decoder, lemma_try_map_fails, lemma_try_map_step, list_decoder, list_of, media_type_decoder,
    opt_url_texts, optional, optional_media_type, optional_text, optional_url_list, reject_unknown,
    required, required_digest, required_i64, required_media_type, required_text,
    schema_version_from, schema_version_of, strict, text_decoder, text_list_decoder,
    text_map_decoder, try_map, url_list_decoder, Shape,
};
use crate::json::{
    array_value, distinct_keys, find, int_value, json_document, json_of, lookup, null_value,
    parse_value, text_value, value_as_array, value_entries, values_model, Json, JsonNumber,
};
use crate::ordered::text_entries;
use crate::text::{opt_text, spelled};

verus! {

/// The platform that an image runs on.
#[derive(Clone, Debug, PartialEq, Eq)]
pub struct Platform {
    pub architecture: String,
    pub os: String,
    /// `os.version`.
    pub os_version: Option<String>,
    /// `os.features`.
    pub os_features: Vec<String>,
    pub variant: Option<String>,
}

/// What a platform holds.
pub struct PlatformModel {
    pub architecture: Seq<char>,
    pub os: Seq<char>,
    pub os_version: Option<Seq<char>>,
    pub os_features: Seq<Seq<char>>,
    pub variant: Option<Seq<char>>,
}

impl DeepView for Platform {
    type V = PlatformModel;

    open spec fn deep_view(&self) -> PlatformModel {
        PlatformModel {
            architecture: self.architecture@,
            os: self.os@,
            os_version: opt_text(self.os_version),
            os_features: self.os_features.deep_view(),
            variant: opt_text(self.variant),
        }
    }
}

/// What a JSON value stands for as a platform at `field`. Fields that a
/// platform does not have are passed over.
pub open spec fn platform_of(j: Json, field: Seq<char>) -> Result<PlatformModel, Violation> {
    match j {
        Json::Object(es) => {
            let architecture = required(lookup(es, "architecture"@), "architecture"@, text_decoder("architecture"@));
            let os = required(lookup(es, "os"@), "os"@, text_decoder("os"@));
            let os_version = optional(lookup(es, "os.version"@), text_decoder("os.version"@));
            let os_features = defaulted(
                lookup(es, "os.features"@),
                Seq::<Seq<char>>::empty(),
                text_list_decoder("os.features"@),
            );
            let variant = optional(lookup(es, "variant"@), text_decoder("variant"@));
            if architecture is Err {
                fail(architecture)
            } else if os is Err {
                fail(os)
            } else if os_version is Err {
                fail(os_version)
            } else if os_features is Err {
                fail(os_features)
            } else if variant is Err {
                fail(variant)
            } else {
                Ok(
                    PlatformModel {
                        architecture: architecture->Ok_0,
                        os: os->Ok_0,
                        os_version: os_version->Ok_0,
                        os_features: os_features->Ok_0,
                        variant: variant->Ok_0,
                    },
                )
            }
        },
        _ => Err(violation(Rule::WrongType, field)),
    }
}

/// [`platform_of`] at `field`, as a function of the value.
pub open spec fn platform_decoder(field: Seq<char>) -> spec_fn(Json) -> Result<PlatformModel, Violation> {
    |j: Json| platform_of(j, field)
}

/// The fields that a platform is written with: the version of the operating
/// system and the variant where there is one, the features unless there are none.
pub open spec fn platform_fields(p: PlatformModel) -> Seq<(Seq<char>, Option<Json>)> {
    seq![
        ("architecture"@, Some(Json::Text(p.architecture))),
        ("os"@, Some(Json::Text(p.os))),
        ("os.version"@, some_text(p.os_version)),
        ("os.features"@, filled_text_list(p.os_features)),
        ("variant"@, some_text(p.variant)),
    ]
}

/// The JSON form of a platform.
pub open spec fn platform_json(p: PlatformModel) -> Json {
    object_json(platform_fields(p))
}

/// A platform, or `null`.
pub open spec fn nullable_platform(o: Option<PlatformModel>) -> Json {
    match o {
        Some(p) => platform_json(p),
        None => Json::Null,
    }
}

/// The fields of a platform have distinct names.
pub proof fn lemma_platform_keys(p: PlatformModel)
    ensures
        distinct_keys(platform_fields(p)),
{
    reveal_strlit("architecture");
    reveal_strlit("os");
    reveal_strlit("os.version");
    reveal_strlit("os.features");
    reveal_strlit("variant");
    assert(spelled("architecture"@, 12, 'a', 'r'));
    assert(spelled("os"@, 2, 'o', 's'));
    assert(spelled("os.version"@, 10, 'o', 's'));
    assert(spelled("os.features"@, 11, 'o', 's'));
    assert(spelled("variant"@, 7, 'v', 'a'));
}

impl Platform {
    /// Writes the platform as a JSON value.
    pub fn to_json(&self) -> (r: serde_json::Value)
        ensures
            json_of(r) == platform_json(self.deep_view()),
    {
        let fields = Fields::new().put("architecture", text_value(self.architecture.clone())).put(
            "os",
            text_value(self.os.clone()),
        ).put_some("os.version", some_text_value(&self.os_version)).put_some(
            "os.features",
            filled_text_list_value(&self.os_features),
        ).put_some("variant", some_text_value(&self.variant));
        proof {
            lemma_platform_keys(self.deep_view());
            assert(fields.table() =~= platform_fields(self.deep_view()));
        }
        fields.finish()
    }

    /// Reads a platform from the JSON value at `field`.
    pub fn from_json(v: &serde_json::Value, field: &str) -> (r: Result<Platform, ValidationError>)
        ensures
            deep(r) == platform_of(json_of(*v), field@),
    {
        let items = match value_entries(v) {
            Some(items) => items,
            None => {
                return Err(invalid(Rule::WrongType, field));
            },
        };
        let architecture = match required_text(&items, "architecture") {
            Ok(x) => x,
            Err(e) => {
                return Err(e);
            },
        };
        let os = match required_text(&items, "os") {
            Ok(x) => x,
            Err(e) => {
                return Err(e);
            },
        };
        let os_version = match optional_text(&items, "os.version") {
            Ok(x) => x,
            Err(e) => {
                return Err(e);
            },
        };
        let os_features = match defaulted_text_list(&items, "os.features") {
            Ok(x) => x,
            Err(e) => {
                return Err(e);
            },
        };
        let variant = match optional_text(&items, "variant") {
            Ok(x) => x,
            Err(e) => {
                return Err(e);
            },
        };
        Ok(Platform { architecture, os, os_version, os_features, variant })
    }
}

/// A manifest descriptor of an index: a content descriptor with an optional platform.
#[derive(Debug)]
pub struct Manifest {
    /// The media type of the referenced manifest.
    pub media_type: String,
    /// The size in bytes of the referenced manifest.
    pub size: i64,
    /// The digest of the manifest, `algorithm:encoded`.
    pub digest: String,
    /// URLs from which the manifest may be downloaded.
    pub urls: Option<Vec<url::Url>>,
    /// The platform of the image.
    pub platform: Option<Platform>,
    /// Annotations, under non-empty keys.
    pub annotations: indexmap::IndexMap<String, String>,
}

/// What a manifest descriptor holds.
pub struct ManifestModel {
    pub media_type: Seq<char>,
    pub size: i64,
    pub digest: Seq<char>,
    pub urls: Option<Seq<Seq<char>>>,
    pub platform: Option<PlatformModel>,
    pub annotations: Seq<(Seq<char>, Seq<char>)>,
}

impl DeepView for Manifest {
    type V = ManifestModel;

    open spec fn deep_view(&self) -> ManifestModel {
        ManifestModel {
            media_type: self.media_type@,
            size: self.size,
            digest: self.digest@,
            urls: opt_url_texts(self.urls),
            platform: self.platform.deep_view(),
            annotations: text_entries(self.annotations),
        }
    }
}

/// What a JSON value stands for as a manifest descriptor at `field`. Fields
/// that a manifest descriptor does not have are passed over.
pub open spec fn manifest_of(j: Json, field: Seq<char>) -> Result<ManifestModel, Violation> {
    match j {
        Json::Object(es) => {
            let media_type = required(lookup(es, "mediaType"@), "mediaType"@, media_type_decoder("mediaType"@));
            let size = required(lookup(es, "size"@), "size"@, i64_decoder("size"@));
            let digest = required(lookup(es, "digest"@), "digest"@, digest_decoder("digest"@));
            let urls = optional(lookup(es, "urls"@), url_list_decoder("urls"@));
            let platform = optional(lookup(es, "platform"@), platform_decoder("platform"@));
            let annotations = defaulted(
                lookup(es, "annotations"@),
                Seq::<(Seq<char>, Seq<char>)>::empty(),
                text_map_decoder("annotations"@),
            );
            if media_type is Err {
                fail(media_type)
            } else if size is Err {
                fail(size)
            } else if digest is Err {
                fail(digest)
            } else if urls is Err {
                fail(urls)
            } else if platform is Err {
                fail(platform)
            } else if annotations is Err {
                fail(annotations)
            } else {
                Ok(
                    ManifestModel {
                        media_type: media_type->Ok_0,
                        size: size->Ok_0,
                        digest: digest->Ok_0,
                        urls: urls->Ok_0,
                        platform: platform->Ok_0,
                        annotations: annotations->Ok_0,
                    },
                )
            }
        },
        _ => Err(violation(Rule::WrongType, field)),
    }
}

/// [`manifest_of`] at `field`, as a function of the value.
pub open spec fn manifest_decoder(field: Seq<char>) -> spec_fn(Json) -> Result<ManifestModel, Violation> {
    |j: Json| manifest_of(j, field)
}

/// The fields that a manifest descriptor is written with: all of them, an
/// absent value as `null`.
pub open spec fn manifest_fields(m: ManifestModel) -> Seq<(Seq<char>, Option<Json>)> {
    seq![
        ("mediaType"@, Some(Json::Text(m.media_type))),
        ("size"@, Some(Json::Number(JsonNumber::Integer(m.size as int)))),
        ("digest"@, Some(Json::Text(m.digest))),
        ("urls"@, Some(nullable_text_list(m.urls))),
        ("platform"@, Some(nullable_platform(m.platform))),
        ("annotations"@, Some(text_map_json(m.annotations))),
    ]
}

/// The JSON form of a manifest descriptor.
pub open spec fn manifest_json(m: ManifestModel) -> Json {
    object_json(manifest_fields(m))
}

/// [`manifest_json`], as a function.
pub open spec fn manifest_encoder() -> spec_fn(ManifestModel) -> Json {
    |m: ManifestModel| manifest_json(m)
}

/// The fields of a manifest descriptor have distinct names.
pub proof fn lemma_manifest_keys(m: ManifestModel)
    ensures
        distinct_keys(manifest_fields(m)),
{
    reveal_strlit("mediaType");
    reveal_strlit("size");
    reveal_strlit("digest");
    reveal_strlit("urls");
    reveal_strlit("platform");
    reveal_strlit("annotations");
    assert(spelled("mediaType"@, 9, 'm', 'e'));
    assert(spelled("size"@, 4, 's', 'i'));
    assert(spelled("digest"@, 6, 'd', 'i'));
    assert(spelled("urls"@, 4, 'u', 'r'));
    assert(spelled("platform"@, 8, 'p', 'l'));
    assert(spelled("annotations"@, 11, 'a', 'n'));
}

impl Manifest {
    /// Writes the manifest descriptor as a JSON value.
    pub fn to_json(&self) -> (r: serde_json::Value)
        ensures
            json_of(r) == manifest_json(self.deep_view()),
    {
        let platform = match &self.platform {
            Some(p) => p.to_json(),
            None => null_value(),
        };
        let fields = Fields::new().put("mediaType", text_value(self.media_type.clone())).put(
            "size",
            int_value(self.size),
        ).put("digest", text_value(self.digest.clone())).put(
            "urls",
            nullable_url_list_value(&self.urls),
        ).put("platform", platform).put("annotations", text_map_value(&self.annotations));
        proof {
            lemma_manifest_keys(self.deep_view());
            assert(fields.table() =~= manifest_fields(self.deep_view()));
        }
        fields.finish()
    }

    /// Writes a list of manifest descriptors as a JSON array.
    pub fn list_to_json(list: &Vec<Manifest>) -> (r: serde_json::Value)
        ensures
            json_of(r) == list_json(list.deep_view(), manifest_encoder()),
    {
        let mut out: Vec<serde_json::Value> = Vec::new();
        let mut i: usize = 0;
        while i < list.len()
            invariant
                i <= list@.len(),
                out@.len() == i,
                forall|j: int| 0 <= j < i ==> json_of(#[trigger] out@[j]) == manifest_json(list@[j].deep_view()),
            decreases list@.len() - i,
        {
            out.push(list[i].to_json());
            i += 1;
        }
        proof {
            let model = list.deep_view();
            assert(values_model(out@) =~= Seq::new(model.len(), |i: int| manifest_encoder()(model[i])));
        }
        array_value(out)
    }

    /// Reads a manifest descriptor from the JSON value at `field`.
    pub fn from_json(v: &serde_json::Value, field: &str) -> (r: Result<Manifest, ValidationError>)
        ensures
            deep(r) == manifest_of(json_of(*v), field@),
    {
        let items = match value_entries(v) {
            Some(items) => items,
            None => {
                return Err(invalid(Rule::WrongType, field));
            },
        };
        let media_type = match required_media_type(&items, "mediaType") {
            Ok(x) => x,
            Err(e) => {
                return Err(e);
            },
        };
        let size = match required_i64(&items, "size") {
            Ok(x) => x,
            Err(e) => {
                return Err(e);
            },
        };
        let digest = match required_digest(&items, "digest") {
            Ok(x) => x,
            Err(e) => {
                return Err(e);
            },
        };
        let urls = match optional_url_list(&items, "urls") {
            Ok(x) => x,
            Err(e) => {
                return Err(e);
            },
        };
        let platform = match find_present(&items, "platform") {
            Some(x) => match Platform::from_json(x, "platform") {
                Ok(p) => Some(p),
                Err(e) => {
                    return Err(e);
                },
            },
            None => None,
        };
        let annotations = match defaulted_text_map(&items, "annotations") {
            Ok(x) => x,
            Err(e) => {
                return Err(e);
            },
        };
        Ok(Manifest { media_type, size, digest, urls, platform, annotations })
    }

    /// Reads an array of manifest descriptors from the JSON value at `field`.
    pub fn list_from_json(v: &serde_json::Value, field: &str) -> (r: Result<Vec<Manifest>, ValidationError>)
        ensures
            deep(r) == list_of(json_of(*v), field@, manifest_decoder(field@)),
    {
        let items = match value_as_array(v) {
            Some(items) => items,
            None => {
                return Err(invalid(Rule::WrongType, field));
            },
        };
        let ghost model = values_model(items@);
        let ghost f = manifest_decoder(field@);
        let mut out: Vec<Manifest> = Vec::new();
        let mut i: usize = 0;
        proof {
            assert(model.take(0) =~= Seq::<Json>::empty());
            assert(out.deep_view() =~= Seq::<ManifestModel>::empty());
        }
        while i < items.len()
            invariant
                i <= items@.len(),
                model == values_model(items@),
                f == manifest_decoder(field@),
                json_of(*v) == Json::Array(model),
                try_map(model.take(i as int), f) == Ok::<Seq<ManifestModel>, Violation>(out.deep_view()),
            decreases items@.len() - i,
        {
            proof {
                lemma_try_map_step(model, f, i as int);
            }
            match Manifest::from_json(&items[i], field) {
                Ok(m) => {
                    let ghost before = out.deep_view();
                    out.push(m);
                    proof {
                        assert(out.deep_view() =~= before.push(m.deep_view()));
                    }
                },
                Err(e) => {
                    proof {
                        lemma_try_map_fails(model, f, i as int + 1);
                    }
                    return Err(e);
                },
            }
            i += 1;
        }
        proof {
            assert(model.take(i as int) =~= model);
        }
        Ok(out)
    }
}

/// The image index.
#[derive(Debug)]
pub struct ImageIndex {
    /// The schema version: always 2.
    pub schema_version: u8,
    /// The media type of the index.
    pub media_type: Option<String>,
    /// The media type of the artifact.
    pub artifact_type: Option<String>,
    /// The descriptor of another manifest that this index refers to.
    pub subject: Option<ContentDescriptor>,
    /// The manifest descriptors, in their order.
    pub manifests: Vec<Manifest>,
    /// Annotations, under non-empty keys.
    pub annotations: indexmap::IndexMap<String, String>,
}

/// What an image index holds.
pub struct IndexModel {
    pub schema_version: u8,
    pub media_type: Option<Seq<char>>,
    pub artifact_type: Option<Seq<char>>,
    pub subject: Option<DescriptorModel>,
    pub manifests: Seq<ManifestModel>,
    pub annotations: Seq<(Seq<char>, Seq<char>)>,
}

impl DeepView for ImageIndex {
    type V = IndexModel;

    open spec fn deep_view(&self) -> IndexModel {
        IndexModel {
            schema_version: self.schema_version,
            media_type: opt_text(self.media_type),
            artifact_type: opt_text(self.artifact_type),
            subject: self.subject.deep_view(),
            manifests: self.manifests.deep_view(),
            annotations: text_entries(self.annotations),
        }
    }
}

/// What a JSON value stands for as an image index. The value is an object;
/// its schema version is the literal 2, which is held to before anything
/// else; it has no fields but the index's own; the first field in the order
/// below that is missing or ill-formed decides the failure. A value that is
/// no object fails at the field of the empty name.
pub open spec fn index_of(j: Json) -> Result<IndexModel, Violation> {
    match j {
        Json::Object(es) => {
            let schema_version = schema_version_of(lookup(es, "schemaVersion"@));
            let known = strict(es, Shape::Index);
            let media_type = optional(lookup(es, "mediaType"@), media_type_decoder("mediaType"@));
            let artifact_type = optional(lookup(es, "artifactType"@), media_type_decoder("artifactType"@));
            let subject = optional(lookup(es, "subject"@), descriptor_decoder("subject"@));
            let manifests = required(
                lookup(es, "manifests"@),
                "manifests"@,
                list_decoder("manifests"@, manifest_decoder("manifests"@)),
            );
            let annotations = defaulted(
                lookup(es, "annotations"@),
                Seq::<(Seq<char>, Seq<char>)>::empty(),
                text_map_decoder("annotations"@),
            );
            if schema_version is Err {
                fail(schema_version)
            } else if known is Err {
                fail(known)
            } else if media_type is Err {
                fail(media_type)
            } else if artifact_type is Err {
                fail(artifact_type)
            } else if subject is Err {
                fail(subject)
            } else if manifests is Err {
                fail(manifests)
            } else if annotations is Err {
                fail(annotations)
            } else {
                Ok(
                    IndexModel {
                        schema_version: schema_version->Ok_0,
                        media_type: media_type->Ok_0,
                        artifact_type: artifact_type->Ok_0,
                        subject: subject->Ok_0,
                        manifests: manifests->Ok_0,
                        annotations: annotations->Ok_0,
                    },
                )
            }
        },
        _ => Err(violation(Rule::WrongType, ""@)),
    }
}

/// A descriptor, where there is one.
pub open spec fn some_descriptor(o: Option<DescriptorModel>) -> Option<Json> {
    match o {
        Some(d) => Some(descriptor_json(d)),
        None => None,
    }
}

/// The fields that an image index is written with: the subject where there
/// is one, all others always, an absent value as `null`.
pub open spec fn index_fields(x: IndexModel) -> Seq<(Seq<char>, Option<Json>)> {
    seq![
        ("schemaVersion"@, Some(Json::Number(JsonNumber::Integer(x.schema_version as int)))),
        ("mediaType"@, Some(nullable_text(x.media_type))),
        ("artifactType"@, Some(nullable_text(x.artifact_type))),
        ("subject"@, some_descriptor(x.subject)),
        ("manifests"@, Some(list_json(x.manifests, manifest_encoder()))),
        ("annotations"@, Some(text_map_json(x.annotations))),
    ]
}

/// The JSON form of an image index.
pub open spec fn index_json(x: IndexModel) -> Json {
    object_json(index_fields(x))
}

/// The fields of an image index have distinct names.
pub proof fn lemma_index_keys(x: IndexModel)
    ensures
        distinct_keys(index_fields(x)),
{
    reveal_strlit("schemaVersion");
    reveal_strlit("mediaType");
    reveal_strlit("artifactType");
    reveal_strlit("subject");
    reveal_strlit("manifests");
    reveal_strlit("annotations");
    assert(spelled("schemaVersion"@, 13, 's', 'c'));
    assert(spelled("mediaType"@, 9, 'm', 'e'));
    assert(spelled("artifactType"@, 12, 'a', 'r'));
    assert(spelled("subject"@, 7, 's', 'u'));
    assert(spelled("manifests"@, 9, 'm', 'a'));
    assert(spelled("annotations"@, 11, 'a', 'n'));
}

impl ImageIndex {
    /// Writes the index as a JSON value.
    pub fn to_json(&self) -> (r: serde_json::Value)
        ensures
            json_of(r) == index_json(self.deep_view()),
    {
        let subject = match &self.subject {
            Some(d) => Some(d.to_json()),
            None => None,
        };
        let version: i64 = self.schema_version as i64;
        let fields = Fields::new().put("schemaVersion", int_value(version)).put(
            "mediaType",
            nullable_text_value(&self.media_type),
        ).put("artifactType", nullable_text_value(&self.artifact_type)).put_some("subject", subject).put(
            "manifests",
            Manifest::list_to_json(&self.manifests),
        ).put("annotations", text_map_value(&self.annotations));
        proof {
            lemma_index_keys(self.deep_view());
            assert(fields.table() =~= index_fields(self.deep_view()));
        }
        fields.finish()
    }

    /// Reads an image index from a JSON value.
    pub fn from_json(v: &serde_json::Value) -> (r: Result<ImageIndex, ValidationError>)
        ensures
            deep(r) == index_of(json_of(*v)),
    {
        let items = match value_entries(v) {
            Some(items) => items,
            None => {
                return Err(invalid(Rule::WrongType, ""));
            },
        };
        let schema_version = match schema_version_from(&items) {
            Ok(x) => x,
            Err(e) => {
                return Err(e);
            },
        };
        match reject_unknown(&items, Shape::Index) {
            Ok(_) => {},
            Err(e) => {
                return Err(e);
            },
        }
        let media_type = match optional_media_type(&items, "mediaType") {
            Ok(x) => x,
            Err(e) => {
                return Err(e);
            },
        };
        let artifact_type = match optional_media_type(&items, "artifactType") {
            Ok(x) => x,
            Err(e) => {
                return Err(e);
            },
        };
        let subject = match find_present(&items, "subject") {
            Some(x) => match ContentDescriptor::from_json(x, "subject") {
                Ok(d) => Some(d),
                Err(e) => {
                    return Err(e);
                },
            },
            None => None,
        };
        let manifests = match find(&items, "manifests") {
            Some(x) => match Manifest::list_from_json(x, "manifests") {
                Ok(l) => l,
                Err(e) => {
                    return Err(e);
                },
            },
            None => {
                return Err(invalid(Rule::MissingField, "manifests"));
            },
        };
        let annotations = match defaulted_text_map(&items, "annotations") {
            Ok(x) => x,
            Err(e) => {
                return Err(e);
            },
        };
        Ok(ImageIndex { schema_version, media_type, artifact_type, subject, manifests, annotations })
    }

    /// Reads an image index from JSON text. The text is parsed by
    /// `serde_json`; what it holds is then read as [`index_of`] says.
    pub fn from_slice(text: &[u8]) -> (r: Result<ImageIndex, DocumentError>)
        ensures
            match r {
                Ok(index) => json_document(text@) matches Some(j) && index_of(j) == Ok::<IndexModel, Violation>(index.deep_view()),
                Err(DocumentError::Invalid(e)) => json_document(text@) matches Some(j) && index_of(j) == Err::<IndexModel, Violation>(e@),
                Err(DocumentError::Syntax(_)) => json_document(text@) is None,
            },
    {
        match parse_value(text) {
            Ok(v) => match ImageIndex::from_json(&v) {
                Ok(index) => Ok(index),
                Err(e) => Err(DocumentError::Invalid(e)),
            },
            Err(e) => Err(DocumentError::Syntax(e)),
        }
    }
}

} // verus!
