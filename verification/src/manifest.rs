//! The image manifest: a configuration and the layers of one image.

use vstd::prelude::*;
use crate::descriptor::{
    descriptor_decoder, descriptor_encoder, descriptor_json, ContentDescriptor, DescriptorModel,
};
use crate::emit::{
    list_json, nullable_text, nullable_text_value, object_json, text_map_json, text_map_value,
    Fields,
};
use crate::error::{invalid, violation, DocumentError, Rule, ValidationError, Violation};
use crate::fields::{
    deep, defaulted, defaulted_text_map, fail, find_present, list_of, media_type_decoder, optional,
    optional_media_type, reject_unknown, required, schema_version_from, schema_version_of, strict,
    text_map_decoder, Shape,
};
use crate::index::some_descriptor;
use crate::json::{
    distinct_keys, find, int_value, json_document, json_of, lookup, parse_value, value_entries,
    Json, JsonNumber,
};
use crate::ordered::text_entries;
use crate::text::{opt_text, spelled};

verus! {

/// The image manifest.
#[derive(Debug)]
pub struct ImageManifest {
    /// The schema version: always 2.
    pub schema_version: u8,
    /// The media type of the manifest.
    pub media_type: Option<String>,
    /// The media type of the artifact.
    pub artifact_type: Option<String>,
    /// The descriptor of the image configuration.
    pub config: ContentDescriptor,
    /// The descriptor of another manifest that this one refers to.
    pub subject: Option<ContentDescriptor>,
    /// The layers, base first; at least one.
    pub layers: Vec<ContentDescriptor>,
    /// Annotations, under non-empty keys.
    pub annotations: indexmap::IndexMap<String, String>,
}

/// What an image manifest holds.
pub struct ManifestDocumentModel {
    pub schema_version: u8,
    pub media_type: Option<Seq<char>>,
    pub artifact_type: Option<Seq<char>>,
    pub config: DescriptorModel,
    pub subject: Option<DescriptorModel>,
    pub layers: Seq<DescriptorModel>,
    pub annotations: Seq<(Seq<char>, Seq<char>)>,
}

impl DeepView for ImageManifest {
    type V = ManifestDocumentModel;

    open spec fn deep_view(&self) -> ManifestDocumentModel {
        ManifestDocumentModel {
            schema_version: self.schema_version,
            media_type: opt_text(self.media_type),
            artifact_type: opt_text(self.artifact_type),
            config: self.config.deep_view(),
            subject: self.subject.deep_view(),
            layers: self.layers.deep_view(),
            annotations: text_entries(self.annotations),
        }
    }
}

/// The layers of a manifest: an array of at least one descriptor.
pub open spec fn layers_of(j: Json, field: Seq<char>) -> Result<Seq<DescriptorModel>, Violation> {
    match list_of(j, field, descriptor_decoder(field)) {
        Ok(layers) => if layers.len() == 0 {
            Err(violation(Rule::LayersEmpty, field))
        } else {
            Ok(layers)
        },
        Err(e) => Err(e),
    }
}

/// [`layers_of`] at `field`, as a function of the value.
pub open spec fn layers_decoder(field: Seq<char>) -> spec_fn(Json) -> Result<Seq<DescriptorModel>, Violation> {
    |j: Json| layers_of(j, field)
}

/// What a JSON value stands for as an image manifest. The value is an
/// object; its schema version is the literal 2, which is held to before
/// anything else; it has no fields but the manifest's own; the first field in
/// the order below that is missing or ill-formed decides the failure. A value
/// that is no object fails at the field of the empty name.
pub open spec fn image_manifest_of(j: Json) -> Result<ManifestDocumentModel, Violation> {
    match j {
        Json::Object(es) => {
            let schema_version = schema_version_of(lookup(es, "schemaVersion"@));
            let known = strict(es, Shape::Manifest);
            let media_type = optional(lookup(es, "mediaType"@), media_type_decoder("mediaType"@));
            let artifact_type = optional(lookup(es, "artifactType"@), media_type_decoder("artifactType"@));
            let config = required(lookup(es, "config"@), "config"@, descriptor_decoder("config"@));
            let subject = optional(lookup(es, "subject"@), descriptor_decoder("subject"@));
            let layers = required(lookup(es, "layers"@), "layers"@, layers_decoder("layers"@));
            let annotations = defaulted(
                lookup(es, "annotations"@),
                Seq::<(Seq<char>, Seq<char>)>::empty(),
                text_map_decoder("annotations"@),
            );
            if schema_version is Err {
                fail(schema_version)
            } else if known is Err {
                fail(known)
            } else if media_type is Err {
                fail(media_type)
            } else if artifact_type is Err {
                fail(artifact_type)
            } else if config is Err {
                fail(config)
            } else if subject is Err {
                fail(subject)
            } else if layers is Err {
                fail(layers)
            } else if annotations is Err {
                fail(annotations)
            } else {
                Ok(
                    ManifestDocumentModel {
                        schema_version: schema_version->Ok_0,
                        media_type: media_type->Ok_0,
                        artifact_type: artifact_type->Ok_0,
                        config: config->Ok_0,
                        subject: subject->Ok_0,
                        layers: layers->Ok_0,
                        annotations: annotations->Ok_0,
                    },
                )
            }
        },
        _ => Err(violation(Rule::WrongType, ""@)),
    }
}

/// The fields that an image manifest is written with: the subject where
/// there is one, all others always, an absent value as `null`.
pub open spec fn image_manifest_fields(m: ManifestDocumentModel) -> Seq<(Seq<char>, Option<Json>)> {
    seq![
        ("schemaVersion"@, Some(Json::Number(JsonNumber::Integer(m.schema_version as int)))),
        ("mediaType"@, Some(nullable_text(m.media_type))),
        ("artifactType"@, Some(nullable_text(m.artifact_type))),
        ("config"@, Some(descriptor_json(m.config))),
        ("subject"@, some_descriptor(m.subject)),
        ("layers"@, Some(list_json(m.layers, descriptor_encoder()))),
        ("annotations"@, Some(text_map_json(m.annotations))),
    ]
}

/// The JSON form of an image manifest.
pub open spec fn image_manifest_json(m: ManifestDocumentModel) -> Json {
    object_json(image_manifest_fields(m))
}

/// The fields of an image manifest have distinct names.
pub proof fn lemma_image_manifest_keys(x: ManifestDocumentModel)
    ensures
        distinct_keys(image_manifest_fields(x)),
{
    reveal_strlit("schemaVersion");
    reveal_strlit("mediaType");
    reveal_strlit("artifactType");
    reveal_strlit("config");
    reveal_strlit("subject");
    reveal_strlit("layers");
    reveal_strlit("annotations");
    assert(spelled("schemaVersion"@, 13, 's', 'c'));
    assert(spelled("mediaType"@, 9, 'm', 'e'));
    assert(spelled("artifactType"@, 12, 'a', 'r'));
    assert(spelled("config"@, 6, 'c', 'o'));
    assert(spelled("subject"@, 7, 's', 'u'));
    assert(spelled("layers"@, 6, 'l', 'a'));
    assert(spelled("annotations"@, 11, 'a', 'n'));
}

impl ImageManifest {
    /// Writes the manifest as a JSON value.
    pub fn to_json(&self) -> (r: serde_json::Value)
        ensures
            json_of(r) == image_manifest_json(self.deep_view()),
    {
        let subject = match &self.subject {
            Some(d) => Some(d.to_json()),
            None => None,
        };
        let version: i64 = self.schema_version as i64;
        let fields = Fields::new().put("schemaVersion", int_value(version)).put(
            "mediaType",
            nullable_text_value(&self.media_type),
        ).put("artifactType", nullable_text_value(&self.artifact_type)).put(
            "config",
            self.config.to_json(),
        ).put_some("subject", subject).put("layers", ContentDescriptor::list_to_json(&self.layers)).put(
            "annotations",
            text_map_value(&self.annotations),
        );
        proof {
            lemma_image_manifest_keys(self.deep_view());
            assert(fields.table() =~= image_manifest_fields(self.deep_view()));
        }
        fields.finish()
    }

    /// Reads an image manifest from a JSON value.
    pub fn from_json(v: &serde_json::Value) -> (r: Result<ImageManifest, ValidationError>)
        ensures
            deep(r) == image_manifest_of(json_of(*v)),
    {
        let items = match value_entries(v) {
            Some(items) => items,
            None => {
                return Err(invalid(Rule::WrongType, ""));
            },
        };
        let schema_version = match schema_version_from(&items) {
            Ok(x) => x,
            Err(e) => {
                return Err(e);
            },
        };
        match reject_unknown(&items, Shape::Manifest) {
            Ok(_) => {},
            Err(e) => {
                return Err(e);
            },
        }
        let media_type = match optional_media_type(&items, "mediaType") {
            Ok(x) => x,
            Err(e) => {
                return Err(e);
            },
        };
        let artifact_type = match optional_media_type(&items, "artifactType") {
            Ok(x) => x,
            Err(e) => {
                return Err(e);
            },
        };
        let config = match find(&items, "config") {
            Some(x) => match ContentDescriptor::from_json(x, "config") {
                Ok(d) => d,
                Err(e) => {
                    return Err(e);
                },
            },
            None => {
                return Err(invalid(Rule::MissingField, "config"));
            },
        };
        let subject = match find_present(&items, "subject") {
            Some(x) => match ContentDescriptor::from_json(x, "subject") {
                Ok(d) => Some(d),
                Err(e) => {
                    return Err(e);
                },
            },
            None => None,
        };
        let layers = match find(&items, "layers") {
            Some(x) => match ContentDescriptor::list_from_json(x, "layers") {
                Ok(l) => l,
                Err(e) => {
                    return Err(e);
                },
            },
            None => {
                return Err(invalid(Rule::MissingField, "layers"));
            },
        };
        if layers.len() == 0 {
            return Err(invalid(Rule::LayersEmpty, "layers"));
        }
        let annotations = match defaulted_text_map(&items, "annotations") {
            Ok(x) => x,
            Err(e) => {
                return Err(e);
            },
        };
        Ok(ImageManifest { schema_version, media_type, artifact_type, config, subject, layers, annotations })
    }

    /// Reads an image manifest from JSON text. The text is parsed by
    /// `serde_json`; what it holds is then read as [`image_manifest_of`] says.
    pub fn from_slice(text: &[u8]) -> (r: Result<ImageManifest, DocumentError>)
        ensures
            match r {
                Ok(m) => json_document(text@) matches Some(j) && image_manifest_of(j) == Ok::<ManifestDocumentModel, Violation>(m.deep_view()),
                Err(DocumentError::Invalid(e)) => json_document(text@) matches Some(j) && image_manifest_of(j) == Err::<ManifestDocumentModel, Violation>(e@),
                Err(DocumentError::Syntax(_)) => json_document(text@) is None,
            },
    {
        match parse_value(text) {
            Ok(v) => match ImageManifest::from_json(&v) {
                Ok(m) => Ok(m),
                Err(e) => Err(DocumentError::Invalid(e)),
            },
            Err(e) => Err(DocumentError::Syntax(e)),
        }
    }
}

} // verus!
