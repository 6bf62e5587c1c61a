//! What holds of the documents and of a load as a whole.

use vstd::prelude::*;
use crate::config::{
    app_config_fields, app_config_json, app_config_of, config_fields, config_json, config_of,
    history_decoder, history_encoder, history_fields, history_json, history_of,
    lemma_app_config_keys, lemma_config_keys, lemma_history_keys, lemma_rootfs_keys, rootfs_fields,
    rootfs_json, rootfs_of, AppConfigModel, ConfigModel, HistoryModel, RootFSModel,
};
use crate::descriptor::{
    descriptor_decoder, descriptor_encoder, descriptor_fields, descriptor_json, descriptor_of,
    lemma_descriptor_keys, resolution_of, DescriptorModel, ResolutionModel,
};
use crate::digest::is_digest;
use crate::emit::{
    filled_text_list, filled_value_map, lemma_present, lemma_present_lookup, list_json,
    nullable_text_list, present, text_encoder, text_list_json, text_map_json,
};
use crate::error::{violation, Failure, Rule, Violation};
use crate::fields::{
    defaulted, lemma_all_known, lemma_try_map_inverse, lemma_try_map_len, list_of, optional, strict,
    text_decoder, text_entry_decoder, text_list_decoder, text_list_of, text_map_of, url_decoder,
    url_list_decoder, value_entry_decoder, value_map_decoder, value_map_of, Shape,
};
use crate::index::{
    index_fields, index_json, index_of, lemma_index_keys, lemma_manifest_keys, lemma_platform_keys,
    manifest_decoder, manifest_encoder, manifest_fields, manifest_json, manifest_of,
    platform_fields, platform_json, platform_of, IndexModel, ManifestModel, PlatformModel,
};
use crate::inline::{base64_bytes, base64_text};
use crate::json::{json_document, lookup, Json, JsonNumber};
use crate::layout::{
    digest_in_work, step, take_config, DirModel, LoaderModel, ProgressModel, ReadModel,
    RequestModel, StepModel,
};
use crate::manifest::{
    image_manifest_fields, image_manifest_json, image_manifest_of, lemma_image_manifest_keys,
    ManifestDocumentModel,
};
use crate::media_type::is_media_type;
use crate::ordered::upsert;
use crate::reference::url_parsed;
use crate::timestamp::{rfc3339_instant, rfc3339_text};

verus! {

/// Version enforcement for the index: a document whose `schemaVersion` is
/// anything but the number 2 fails with `InvalidSchemaVersion`, whatever else
/// it holds.
pub proof fn index_version_is_enforced(entries: Seq<(Seq<char>, Json)>, version: Json)
    requires
        lookup(entries, "schemaVersion"@) == Some(version),
        version != Json::Number(JsonNumber::Integer(2)),
    ensures
        index_of(Json::Object(entries)) == Err::<IndexModel, Violation>(
            violation(Rule::InvalidSchemaVersion, "schemaVersion"@),
        ),
{
}

/// Version enforcement for the manifest: a document whose `schemaVersion`
/// is anything but the number 2 fails with `InvalidSchemaVersion`, whatever
/// else it holds.
pub proof fn manifest_version_is_enforced(entries: Seq<(Seq<char>, Json)>, version: Json)
    requires
        lookup(entries, "schemaVersion"@) == Some(version),
        version != Json::Number(JsonNumber::Integer(2)),
    ensures
        image_manifest_of(Json::Object(entries)) == Err::<ManifestDocumentModel, Violation>(
            violation(Rule::InvalidSchemaVersion, "schemaVersion"@),
        ),
{
}

/// Inline precedence: a descriptor with inline data resolves to that data,
/// whatever its digest is.
pub proof fn inline_data_comes_first(d: DescriptorModel)
    requires
        d.data is Some,
    ensures
        resolution_of(d) == Ok::<ResolutionModel, Failure>(ResolutionModel::Inline(d.data->Some_0)),
{
}

/// Inline precedence in a load: a load asks for the blob of a configuration
/// only where the descriptor of the configuration has no inline data.
pub proof fn inline_config_needs_no_read(state: LoaderModel, read: ReadModel)
    ensures
        step(state, read) matches StepModel::Read(LoaderModel::Config(_, m), _) ==> m.config.data is None,
{
}

/// Fail-fast on a missing blob: a load that waits for a blob and learns
/// that there is none ends with `BlobNotFound` for the digest of that blob.
pub proof fn missing_blob_ends_the_load(p: ProgressModel, m: ManifestDocumentModel)
    ensures
        step(LoaderModel::Manifest(p), ReadModel::Missing) == StepModel::Failed(
            Failure::BlobNotFound(digest_in_work(p)),
        ),
        step(LoaderModel::Config(p, m), ReadModel::Missing) == StepModel::Failed(
            Failure::BlobNotFound(m.config.digest),
        ),
{
}

/// No key is the empty text.
pub open spec fn keys_filled<V>(entries: Seq<(Seq<char>, V)>) -> bool {
    forall|i: int| 0 <= i < entries.len() ==> (#[trigger] entries[i]).0.len() > 0
}

/// The text, if there is one, is a media type.
pub open spec fn media_type_if_any(o: Option<Seq<char>>) -> bool {
    o matches Some(t) ==> is_media_type(t)
}

/// The rules of the format for a content descriptor.
pub open spec fn descriptor_valid(d: DescriptorModel) -> bool {
    &&& is_media_type(d.media_type)
    &&& is_digest(d.digest)
    &&& media_type_if_any(d.artifact_type)
    &&& keys_filled(d.annotations)
}

/// `url` reads the serialization of each URL as itself.
pub open spec fn urls_survive(o: Option<Seq<Seq<char>>>) -> bool {
    o matches Some(urls) ==> forall|i: int| 0 <= i < urls.len() ==> url_parsed(#[trigger] urls[i]) == Some(urls[i])
}

/// `chrono` reads what it writes for the instant, if there is one, as that instant.
pub open spec fn timestamp_survives(o: Option<(i64, u32)>) -> bool {
    o matches Some(t) ==> (rfc3339_text(t.0, t.1) matches Some(s) && rfc3339_instant(s) == Some(t))
}

/// What the outside codecs write for the payloads of a descriptor, they read back.
pub open spec fn descriptor_survives(d: DescriptorModel) -> bool {
    &&& urls_survive(d.urls)
    &&& d.data matches Some(bytes) ==> base64_bytes(base64_text(bytes)) == Some(bytes)
}

/// A list of strings comes back from its written form.
pub proof fn text_list_comes_back(l: Seq<Seq<char>>, field: Seq<char>)
    ensures
        text_list_of(text_list_json(l), field) == Ok::<Seq<Seq<char>>, Violation>(l),
        defaulted(filled_text_list(l), Seq::<Seq<char>>::empty(), text_list_decoder(field)) == Ok::<
            Seq<Seq<char>>,
            Violation,
        >(l),
{
    let written = Seq::new(l.len(), |i: int| text_encoder()(l[i]));
    lemma_try_map_inverse(l, written, text_decoder(field));
    if l.len() == 0 {
        assert(l =~= Seq::<Seq<char>>::empty());
    }
}

/// An optional list of strings comes back from its written form.
pub proof fn optional_text_list_comes_back(o: Option<Seq<Seq<char>>>, field: Seq<char>)
    ensures
        optional(Some(nullable_text_list(o)), text_list_decoder(field)) == Ok::<Option<Seq<Seq<char>>>, Violation>(o),
{
    if o is Some {
        text_list_comes_back(o->Some_0, field);
    }
}

/// An optional list of URLs comes back from its written form, where `url`
/// reads each serialization as itself.
pub proof fn url_list_comes_back(o: Option<Seq<Seq<char>>>, field: Seq<char>)
    requires
        urls_survive(o),
    ensures
        optional(Some(nullable_text_list(o)), url_list_decoder(field)) == Ok::<Option<Seq<Seq<char>>>, Violation>(o),
{
    if o is Some {
        let l = o->Some_0;
        let written = Seq::new(l.len(), |i: int| text_encoder()(l[i]));
        lemma_try_map_inverse(l, written, url_decoder(field));
    }
}

/// A map from non-empty keys to strings comes back from its written form.
pub proof fn text_map_comes_back(m: Seq<(Seq<char>, Seq<char>)>, field: Seq<char>)
    requires
        keys_filled(m),
    ensures
        text_map_of(text_map_json(m), field) == Ok::<Seq<(Seq<char>, Seq<char>)>, Violation>(m),
{
    let written = Seq::new(m.len(), |i: int| (m[i].0, Json::Text(m[i].1)));
    lemma_try_map_inverse(m, written, text_entry_decoder(field));
}

/// A map from non-empty keys to JSON values comes back from its written form.
pub proof fn value_map_comes_back(m: Seq<(Seq<char>, Json)>, field: Seq<char>)
    requires
        keys_filled(m),
    ensures
        value_map_of(Json::Object(m), field) == Ok::<Seq<(Seq<char>, Json)>, Violation>(m),
        defaulted(filled_value_map(m), Seq::<(Seq<char>, Json)>::empty(), value_map_decoder(field)) == Ok::<
            Seq<(Seq<char>, Json)>,
            Violation,
        >(m),
{
    lemma_try_map_inverse(m, m, value_entry_decoder(field));
    if m.len() == 0 {
        assert(m =~= Seq::<(Seq<char>, Json)>::empty());
    }
}

/// Round trip of a platform: what is read from the written form of a
/// platform is that platform.
pub proof fn platform_comes_back(p: PlatformModel, field: Seq<char>)
    ensures
        platform_of(platform_json(p), field) == Ok::<PlatformModel, Violation>(p),
{
    let fields = platform_fields(p);
    lemma_platform_keys(p);
    lemma_present_lookup(fields, 0);
    lemma_present_lookup(fields, 1);
    lemma_present_lookup(fields, 2);
    lemma_present_lookup(fields, 3);
    lemma_present_lookup(fields, 4);
    text_list_comes_back(p.os_features, "os.features"@);
}

/// Every key of a written object is the name of a field of its table.
pub proof fn lemma_written_keys(fields: Seq<(Seq<char>, Option<Json>)>, shape: Shape)
    requires
        forall|k: int| 0 <= k < fields.len() ==> shape.knows((#[trigger] fields[k]).0),
    ensures
        strict(present(fields), shape) is Ok,
{
    lemma_present(fields);
    let es = present(fields);
    assert forall|i: int| 0 <= i < es.len() implies shape.knows((#[trigger] es[i]).0) by {
        let k = choose|k: int| i <= k < fields.len() && (#[trigger] fields[k]) == (es[i].0, Some(es[i].1));
    }
    lemma_all_known(es, shape);
}

/// Round trip of a content descriptor: what is read from the written form
/// of a descriptor that holds the rules of the format is that descriptor,
/// where the outside codecs read back what they write for its payloads.
pub proof fn descriptor_comes_back(d: DescriptorModel, field: Seq<char>)
    requires
        descriptor_valid(d),
        descriptor_survives(d),
    ensures
        descriptor_of(descriptor_json(d), field) == Ok::<DescriptorModel, Violation>(d),
{
    let fields = descriptor_fields(d);
    lemma_descriptor_keys(d);
    lemma_written_keys(fields, Shape::Descriptor);
    lemma_present_lookup(fields, 0);
    lemma_present_lookup(fields, 1);
    lemma_present_lookup(fields, 2);
    lemma_present_lookup(fields, 3);
    lemma_present_lookup(fields, 4);
    lemma_present_lookup(fields, 5);
    lemma_present_lookup(fields, 6);
    url_list_comes_back(d.urls, "urls"@);
    text_map_comes_back(d.annotations, "annotations"@);
}

/// What is read as a content descriptor holds the rules of the format.
pub proof fn descriptor_read_is_valid(j: Json, field: Seq<char>)
    ensures
        descriptor_of(j, field) matches Ok(d) ==> descriptor_valid(d),
{
    if let Json::Object(es) = j {
        if let Some(a) = lookup(es, "annotations"@) {
            text_map_read_is_filled(a, "annotations"@);
        }
    }
}

/// What is read as a map from text to text has no empty key.
pub proof fn text_map_read_is_filled(j: Json, field: Seq<char>)
    ensures
        text_map_of(j, field) matches Ok(m) ==> keys_filled(m),
{
    if let Json::Object(es) = j {
        let f = text_entry_decoder(field);
        lemma_try_map_len(es, f);
        if let Ok(m) = text_map_of(j, field) {
            assert forall|i: int| 0 <= i < m.len() implies (#[trigger] m[i]).0.len() > 0 by {
                assert(f(es[i]) == Ok::<(Seq<char>, Seq<char>), Violation>(m[i]));
            }
        }
    }
}

/// What is read as a map from text to JSON values has no empty key.
pub proof fn value_map_read_is_filled(j: Json, field: Seq<char>)
    ensures
        value_map_of(j, field) matches Ok(m) ==> keys_filled(m),
{
    if let Json::Object(es) = j {
        let f = value_entry_decoder(field);
        lemma_try_map_len(es, f);
        if let Ok(m) = value_map_of(j, field) {
            assert forall|i: int| 0 <= i < m.len() implies (#[trigger] m[i]).0.len() > 0 by {
                assert(f(es[i]) == Ok::<(Seq<char>, Json), Violation>(m[i]));
            }
        }
    }
}

/// The rules of the format for a manifest descriptor.
pub open spec fn manifest_valid(m: ManifestModel) -> bool {
    &&& is_media_type(m.media_type)
    &&& is_digest(m.digest)
    &&& keys_filled(m.annotations)
}

/// The rules of the format for an optional descriptor.
pub open spec fn descriptor_valid_if_any(o: Option<DescriptorModel>) -> bool {
    o matches Some(d) ==> descriptor_valid(d)
}

/// What the outside codecs write for the payloads of an optional descriptor, they read back.
pub open spec fn descriptor_survives_if_any(o: Option<DescriptorModel>) -> bool {
    o matches Some(d) ==> descriptor_survives(d)
}

/// The rules of the format for an image index.
pub open spec fn index_valid(x: IndexModel) -> bool {
    &&& x.schema_version == 2
    &&& media_type_if_any(x.media_type)
    &&& media_type_if_any(x.artifact_type)
    &&& descriptor_valid_if_any(x.subject)
    &&& forall|i: int| 0 <= i < x.manifests.len() ==> manifest_valid(#[trigger] x.manifests[i])
    &&& keys_filled(x.annotations)
}

/// What the outside codecs write for the payloads of an index, they read back.
pub open spec fn index_survives(x: IndexModel) -> bool {
    &&& descriptor_survives_if_any(x.subject)
    &&& forall|i: int| 0 <= i < x.manifests.len() ==> urls_survive((#[trigger] x.manifests[i]).urls)
}

/// The rules of the format for an image manifest.
pub open spec fn image_manifest_valid(m: ManifestDocumentModel) -> bool {
    &&& m.schema_version == 2
    &&& media_type_if_any(m.media_type)
    &&& media_type_if_any(m.artifact_type)
    &&& descriptor_valid(m.config)
    &&& descriptor_valid_if_any(m.subject)
    &&& m.layers.len() > 0
    &&& forall|i: int| 0 <= i < m.layers.len() ==> descriptor_valid(#[trigger] m.layers[i])
    &&& keys_filled(m.annotations)
}

/// What the outside codecs write for the payloads of a manifest, they read back.
pub open spec fn image_manifest_survives(m: ManifestDocumentModel) -> bool {
    &&& descriptor_survives(m.config)
    &&& descriptor_survives_if_any(m.subject)
    &&& forall|i: int| 0 <= i < m.layers.len() ==> descriptor_survives(#[trigger] m.layers[i])
}

/// The rules of the format for the defaults of a container.
pub open spec fn app_config_valid(c: AppConfigModel) -> bool {
    &&& keys_filled(c.exposed_ports)
    &&& c.volumes matches Some(v) ==> keys_filled(v)
    &&& c.labels matches Some(l) ==> keys_filled(l)
}

/// The rules of the format for an image configuration.
pub open spec fn config_valid(c: ConfigModel) -> bool {
    c.config matches Some(a) ==> app_config_valid(a)
}

/// What the outside codecs write for the payloads of a configuration, they read back.
pub open spec fn config_survives(c: ConfigModel) -> bool {
    &&& timestamp_survives(c.created)
    &&& forall|i: int| 0 <= i < c.history.len() ==> timestamp_survives((#[trigger] c.history[i]).created)
}

/// A list of descriptors comes back from its written form.
pub proof fn descriptor_list_comes_back(l: Seq<DescriptorModel>, field: Seq<char>)
    requires
        forall|i: int| 0 <= i < l.len() ==> descriptor_valid(#[trigger] l[i]),
        forall|i: int| 0 <= i < l.len() ==> descriptor_survives(#[trigger] l[i]),
    ensures
        list_of(list_json(l, descriptor_encoder()), field, descriptor_decoder(field)) == Ok::<
            Seq<DescriptorModel>,
            Violation,
        >(l),
{
    let written = Seq::new(l.len(), |i: int| descriptor_encoder()(l[i]));
    assert forall|i: int| 0 <= i < l.len() implies descriptor_decoder(field)(#[trigger] written[i]) == Ok::<
        DescriptorModel,
        Violation,
    >(l[i]) by {
        descriptor_comes_back(l[i], field);
    }
    lemma_try_map_inverse(l, written, descriptor_decoder(field));
}

/// Round trip of a manifest descriptor: what is read from the written form
/// of a manifest descriptor that holds the rules of the format is that
/// descriptor, where `url` reads back what it writes.
pub proof fn manifest_comes_back(m: ManifestModel, field: Seq<char>)
    requires
        manifest_valid(m),
        urls_survive(m.urls),
    ensures
        manifest_of(manifest_json(m), field) == Ok::<ManifestModel, Violation>(m),
{
    let fields = manifest_fields(m);
    lemma_manifest_keys(m);
    lemma_present_lookup(fields, 0);
    lemma_present_lookup(fields, 1);
    lemma_present_lookup(fields, 2);
    lemma_present_lookup(fields, 3);
    lemma_present_lookup(fields, 4);
    lemma_present_lookup(fields, 5);
    url_list_comes_back(m.urls, "urls"@);
    text_map_comes_back(m.annotations, "annotations"@);
    if m.platform is Some {
        platform_comes_back(m.platform->Some_0, "platform"@);
        lemma_platform_is_object(m.platform->Some_0);
    }
}

/// The written form of a platform is an object.
proof fn lemma_platform_is_object(p: PlatformModel)
    ensures
        platform_json(p) is Object,
{
}

/// Round trip of an image index: what is read from the written form of an
/// index that holds the rules of the format is that index, where the
/// outside codecs read back what they write for its payloads. So the written
/// form of what is read from such a document is the document.
pub proof fn index_comes_back(x: IndexModel)
    requires
        index_valid(x),
        index_survives(x),
    ensures
        index_of(index_json(x)) == Ok::<IndexModel, Violation>(x),
        index_json(index_of(index_json(x))->Ok_0) == index_json(x),
{
    let fields = index_fields(x);
    lemma_index_keys(x);
    lemma_written_keys(fields, Shape::Index);
    lemma_present_lookup(fields, 0);
    lemma_present_lookup(fields, 1);
    lemma_present_lookup(fields, 2);
    lemma_present_lookup(fields, 3);
    lemma_present_lookup(fields, 4);
    lemma_present_lookup(fields, 5);
    text_map_comes_back(x.annotations, "annotations"@);
    if x.subject is Some {
        descriptor_comes_back(x.subject->Some_0, "subject"@);
    }
    let l = x.manifests;
    let written = Seq::new(l.len(), |i: int| manifest_encoder()(l[i]));
    assert forall|i: int| 0 <= i < l.len() implies manifest_decoder("manifests"@)(#[trigger] written[i]) == Ok::<
        ManifestModel,
        Violation,
    >(l[i]) by {
        manifest_comes_back(l[i], "manifests"@);
    }
    lemma_try_map_inverse(l, written, manifest_decoder("manifests"@));
}

/// Round trip of an image manifest: what is read from the written form of
/// a manifest that holds the rules of the format is that manifest, where the
/// outside codecs read back what they write for its payloads. So the written
/// form of what is read from such a document is the document.
pub proof fn image_manifest_comes_back(m: ManifestDocumentModel)
    requires
        image_manifest_valid(m),
        image_manifest_survives(m),
    ensures
        image_manifest_of(image_manifest_json(m)) == Ok::<ManifestDocumentModel, Violation>(m),
        image_manifest_json(image_manifest_of(image_manifest_json(m))->Ok_0) == image_manifest_json(m),
{
    let fields = image_manifest_fields(m);
    lemma_image_manifest_keys(m);
    lemma_written_keys(fields, Shape::Manifest);
    lemma_present_lookup(fields, 0);
    lemma_present_lookup(fields, 1);
    lemma_present_lookup(fields, 2);
    lemma_present_lookup(fields, 3);
    lemma_present_lookup(fields, 4);
    lemma_present_lookup(fields, 5);
    lemma_present_lookup(fields, 6);
    text_map_comes_back(m.annotations, "annotations"@);
    descriptor_comes_back(m.config, "config"@);
    if m.subject is Some {
        descriptor_comes_back(m.subject->Some_0, "subject"@);
    }
    descriptor_list_comes_back(m.layers, "layers"@);
}

/// Round trip of a root file system.
pub proof fn rootfs_comes_back(fs: RootFSModel, field: Seq<char>)
    ensures
        rootfs_of(rootfs_json(fs), field) == Ok::<RootFSModel, Violation>(fs),
{
    let fields = rootfs_fields(fs);
    lemma_rootfs_keys(fs);
    lemma_present_lookup(fields, 0);
    lemma_present_lookup(fields, 1);
    text_list_comes_back(fs.diff_ids, "diff_ids"@);
}

/// Round trip of a history entry, where `chrono` reads back what it writes
/// for the date of the entry.
pub proof fn history_comes_back(h: HistoryModel, field: Seq<char>)
    requires
        timestamp_survives(h.created),
    ensures
        history_of(history_json(h), field) == Ok::<HistoryModel, Violation>(h),
{
    let fields = history_fields(h);
    lemma_history_keys(h);
    lemma_present_lookup(fields, 0);
    lemma_present_lookup(fields, 1);
    lemma_present_lookup(fields, 2);
    lemma_present_lookup(fields, 3);
    lemma_present_lookup(fields, 4);
}

/// Round trip of the defaults of a container that hold the rules of the format.
pub proof fn app_config_comes_back(c: AppConfigModel, field: Seq<char>)
    requires
        app_config_valid(c),
    ensures
        app_config_of(app_config_json(c), field) == Ok::<AppConfigModel, Violation>(c),
{
    let fields = app_config_fields(c);
    lemma_app_config_keys(c);
    lemma_present_lookup(fields, 0);
    lemma_present_lookup(fields, 1);
    lemma_present_lookup(fields, 2);
    lemma_present_lookup(fields, 3);
    lemma_present_lookup(fields, 4);
    lemma_present_lookup(fields, 5);
    lemma_present_lookup(fields, 6);
    lemma_present_lookup(fields, 7);
    lemma_present_lookup(fields, 8);
    lemma_present_lookup(fields, 9);
    value_map_comes_back(c.exposed_ports, "ExposedPorts"@);
    text_list_comes_back(c.env, "Env"@);
    optional_text_list_comes_back(c.entrypoint, "Entrypoint"@);
    optional_text_list_comes_back(c.cmd, "Cmd"@);
    if c.volumes is Some {
        value_map_comes_back(c.volumes->Some_0, "Volumes"@);
    }
    if c.labels is Some {
        text_map_comes_back(c.labels->Some_0, "Labels"@);
    }
}

/// Round trip of an image configuration: what is read from the written
/// form of a configuration that holds the rules of the format is that
/// configuration, where `chrono` reads back what it writes for its dates. So
/// the written form of what is read from such a document is the document.
pub proof fn config_comes_back(c: ConfigModel)
    requires
        config_valid(c),
        config_survives(c),
    ensures
        config_of(config_json(c)) == Ok::<ConfigModel, Violation>(c),
        config_json(config_of(config_json(c))->Ok_0) == config_json(c),
{
    let fields = config_fields(c);
    lemma_config_keys(c);
    lemma_written_keys(fields, Shape::Config);
    lemma_present_lookup(fields, 0);
    lemma_present_lookup(fields, 1);
    lemma_present_lookup(fields, 2);
    lemma_present_lookup(fields, 3);
    lemma_present_lookup(fields, 4);
    lemma_present_lookup(fields, 5);
    lemma_present_lookup(fields, 6);
    lemma_present_lookup(fields, 7);
    lemma_present_lookup(fields, 8);
    lemma_present_lookup(fields, 9);
    text_list_comes_back(c.os_features, "os.features"@);
    if c.config is Some {
        app_config_comes_back(c.config->Some_0, "config"@);
    }
    rootfs_comes_back(c.rootfs, "rootfs"@);
    let l = c.history;
    if l.len() == 0 {
        assert(l =~= Seq::<HistoryModel>::empty());
    } else {
        let written = Seq::new(l.len(), |i: int| history_encoder()(l[i]));
        assert forall|i: int| 0 <= i < l.len() implies history_decoder("history"@)(#[trigger] written[i]) == Ok::<
            HistoryModel,
            Violation,
        >(l[i]) by {
            history_comes_back(l[i], "history"@);
        }
        lemma_try_map_inverse(l, written, history_decoder("history"@));
    }
}

/// What is read as a list of descriptors holds the rules of the format.
pub proof fn descriptor_list_read_is_valid(j: Json, field: Seq<char>)
    ensures
        list_of(j, field, descriptor_decoder(field)) matches Ok(l) ==> forall|i: int|
            0 <= i < l.len() ==> descriptor_valid(#[trigger] l[i]),
{
    if let Json::Array(items) = j {
        let f = descriptor_decoder(field);
        lemma_try_map_len(items, f);
        if let Ok(l) = list_of(j, field, f) {
            assert forall|i: int| 0 <= i < l.len() implies descriptor_valid(#[trigger] l[i]) by {
                assert(f(items[i]) == Ok::<DescriptorModel, Violation>(l[i]));
                descriptor_read_is_valid(items[i], field);
            }
        }
    }
}

/// What is read as a manifest descriptor holds the rules of the format.
pub proof fn manifest_read_is_valid(j: Json, field: Seq<char>)
    ensures
        manifest_of(j, field) matches Ok(m) ==> manifest_valid(m),
{
    if let Json::Object(es) = j {
        if let Some(a) = lookup(es, "annotations"@) {
            text_map_read_is_filled(a, "annotations"@);
        }
    }
}

/// What is read as an image index holds the rules of the format: no
/// document that breaks them is taken for an index.
pub proof fn index_read_is_valid(j: Json)
    ensures
        index_of(j) matches Ok(x) ==> index_valid(x),
{
    if let Json::Object(es) = j {
        if let Some(a) = lookup(es, "annotations"@) {
            text_map_read_is_filled(a, "annotations"@);
        }
        if let Some(d) = lookup(es, "subject"@) {
            descriptor_read_is_valid(d, "subject"@);
        }
        if let Some(Json::Array(items)) = lookup(es, "manifests"@) {
            let f = manifest_decoder("manifests"@);
            lemma_try_map_len(items, f);
            if let Ok(x) = index_of(j) {
                let l = x.manifests;
                assert forall|i: int| 0 <= i < l.len() implies manifest_valid(#[trigger] l[i]) by {
                    assert(f(items[i]) == Ok::<ManifestModel, Violation>(l[i]));
                    manifest_read_is_valid(items[i], "manifests"@);
                }
            }
        }
    }
}

/// What is read as an image manifest holds the rules of the format: no
/// document that breaks them is taken for a manifest.
pub proof fn image_manifest_read_is_valid(j: Json)
    ensures
        image_manifest_of(j) matches Ok(m) ==> image_manifest_valid(m),
{
    if let Json::Object(es) = j {
        if let Some(a) = lookup(es, "annotations"@) {
            text_map_read_is_filled(a, "annotations"@);
        }
        if let Some(d) = lookup(es, "subject"@) {
            descriptor_read_is_valid(d, "subject"@);
        }
        if let Some(d) = lookup(es, "config"@) {
            descriptor_read_is_valid(d, "config"@);
        }
        if let Some(l) = lookup(es, "layers"@) {
            descriptor_list_read_is_valid(l, "layers"@);
        }
    }
}

/// What is read as the defaults of a container holds the rules of the format.
pub proof fn app_config_read_is_valid(j: Json, field: Seq<char>)
    ensures
        app_config_of(j, field) matches Ok(c) ==> app_config_valid(c),
{
    if let Json::Object(es) = j {
        if let Some(a) = lookup(es, "ExposedPorts"@) {
            value_map_read_is_filled(a, "ExposedPorts"@);
        }
        if let Some(a) = lookup(es, "Volumes"@) {
            value_map_read_is_filled(a, "Volumes"@);
        }
        if let Some(a) = lookup(es, "Labels"@) {
            text_map_read_is_filled(a, "Labels"@);
        }
    }
}

/// What is read as an image configuration holds the rules of the format:
/// no document that breaks them is taken for a configuration.
pub proof fn config_read_is_valid(j: Json)
    ensures
        config_of(j) matches Ok(c) ==> config_valid(c),
{
    if let Json::Object(es) = j {
        if let Some(a) = lookup(es, "config"@) {
            app_config_read_is_valid(a, "config"@);
        }
    }
}

/// A load that is driven to its end: each request is answered by `files`,
/// for at most `reads` reads. `None` where the load has not ended by then.
pub open spec fn run(
    state: LoaderModel,
    request: RequestModel,
    files: spec_fn(RequestModel) -> ReadModel,
    reads: nat,
) -> Option<Result<DirModel, Failure>>
    decreases reads,
{
    if reads == 0 {
        None
    } else {
        match step(state, files(request)) {
            StepModel::Loaded(dir) => Some(Ok(dir)),
            StepModel::Failed(failure) => Some(Err(failure)),
            StepModel::Read(next, wanted) => run(next, wanted, files, (reads - 1) as nat),
        }
    }
}

/// The descriptor in work is one of the index.
pub open spec fn in_range(state: LoaderModel) -> bool {
    match state {
        LoaderModel::Index => true,
        LoaderModel::Manifest(p) => 0 <= p.position < p.index.manifests.len(),
        LoaderModel::Config(p, _) => 0 <= p.position < p.index.manifests.len(),
    }
}

/// The reads that a load in `state` needs at most: two for each manifest
/// descriptor that is left, one less where the manifest is read already.
pub open spec fn reads_left(state: LoaderModel) -> nat {
    match state {
        LoaderModel::Index => 0,
        LoaderModel::Manifest(p) => (2 * (p.index.manifests.len() - p.position)) as nat,
        LoaderModel::Config(p, _) => (2 * (p.index.manifests.len() - p.position) - 1) as nat,
    }
}

/// Every key of the manifests loaded so far is the digest string of a
/// manifest descriptor of the index before the one in work, and the
/// manifests are no more than those descriptors; the configurations are no
/// more either.
pub open spec fn keyed_by_index(p: ProgressModel) -> bool {
    &&& 0 <= p.position <= p.index.manifests.len()
    &&& p.manifests.len() <= p.position
    &&& p.configs.len() <= p.position
    &&& forall|i: int| 0 <= i < p.manifests.len() ==> exists|k: int| 0 <= k < p.position && (#[trigger] p.manifests[i]).0 == (#[trigger] p.index.manifests[k]).digest
}

/// The state of a load is one that a load from its start comes to.
pub open spec fn reached(state: LoaderModel) -> bool {
    match state {
        LoaderModel::Index => true,
        LoaderModel::Manifest(p) => in_range(state) && keyed_by_index(p),
        LoaderModel::Config(p, _) => in_range(state) && keyed_by_index(p),
    }
}

/// What a loaded layout holds is keyed by its index.
pub open spec fn dir_keyed_by_index(dir: DirModel) -> bool {
    &&& dir.manifests.len() <= dir.index.manifests.len()
    &&& dir.configs.len() <= dir.index.manifests.len()
    &&& forall|i: int| 0 <= i < dir.manifests.len() ==> exists|k: int| 0 <= k < dir.index.manifests.len() && (#[trigger] dir.manifests[i]).0 == (#[trigger] dir.index.manifests[k]).digest
}

/// An insertion adds at most one entry, and no key but the inserted one.
pub proof fn lemma_upsert_keys<V>(entries: Seq<(Seq<char>, V)>, key: Seq<char>, value: V)
    ensures
        entries.len() <= upsert(entries, key, value).len() <= entries.len() + 1,
        forall|i: int| 0 <= i < upsert(entries, key, value).len() ==> (#[trigger] upsert(entries, key, value)[i]).0 == key || (i < entries.len() && upsert(entries, key, value)[i].0 == entries[i].0),
{
}

/// Each step of a load keeps it among the states that a load comes to.
pub proof fn step_keeps_reached(state: LoaderModel, read: ReadModel)
    requires
        reached(state),
    ensures
        step(state, read) matches StepModel::Read(next, _) ==> reached(next) && !(next is Index) && (state is Index || reads_left(next) < reads_left(state)),
        step(state, read) matches StepModel::Loaded(dir) ==> dir_keyed_by_index(dir),
{
    match state {
        LoaderModel::Index => {
            if let ReadModel::Found(text) = read {
                if let Some(j) = json_document(text) {
                    if let Ok(index) = index_of(j) {
                        let p = ProgressModel { index, position: 0, manifests: Seq::empty(), configs: Seq::empty() };
                        assert(keyed_by_index(p));
                    }
                }
            }
        },
        LoaderModel::Manifest(p) => {
            if let ReadModel::Found(text) = read {
                if let Some(j) = json_document(text) {
                    if let Ok(m) = image_manifest_of(j) {
                        if let Some(inline) = m.config.data {
                            lemma_take_config(p, m, inline);
                        }
                    }
                }
            }
        },
        LoaderModel::Config(p, m) => {
            if let ReadModel::Found(text) = read {
                lemma_take_config(p, m, text);
            }
        },
    }
}

/// Taking a configuration keeps a load among the states that a load comes to.
proof fn lemma_take_config(p: ProgressModel, m: ManifestDocumentModel, text: Seq<u8>)
    requires
        keyed_by_index(p),
        0 <= p.position < p.index.manifests.len(),
    ensures
        take_config(p, m, text) matches StepModel::Read(next, _) ==> reached(next) && next is Manifest && reads_left(next) == 2 * (p.index.manifests.len() - p.position) - 2,
        take_config(p, m, text) matches StepModel::Loaded(dir) ==> dir_keyed_by_index(dir),
{
    if let Some(j) = json_document(text) {
        if let Ok(c) = config_of(j) {
            let q = ProgressModel {
                index: p.index,
                position: p.position + 1,
                manifests: upsert(p.manifests, digest_in_work(p), m),
                configs: upsert(p.configs, m.config.digest, c),
            };
            lemma_upsert_keys(p.manifests, digest_in_work(p), m);
            lemma_upsert_keys(p.configs, m.config.digest, c);
            assert forall|i: int| 0 <= i < q.manifests.len() implies exists|k: int| 0 <= k < q.position && (#[trigger] q.manifests[i]).0 == (#[trigger] q.index.manifests[k]).digest by {
                if q.manifests[i].0 == digest_in_work(p) {
                    assert(q.index.manifests[p.position].digest == q.manifests[i].0);
                } else {
                    assert(q.manifests[i].0 == p.manifests[i].0);
                    let k = choose|k: int| 0 <= k < p.position && (#[trigger] p.manifests[i]).0 == (#[trigger] p.index.manifests[k]).digest;
                    assert(q.index.manifests[k].digest == q.manifests[i].0);
                }
            }
            assert(keyed_by_index(q));
        }
    }
}

/// A load ends: from a state that a load comes to, it is over after the
/// reads that are left, whatever the files hold, and more reads change nothing.
pub proof fn load_ends(state: LoaderModel, request: RequestModel, files: spec_fn(RequestModel) -> ReadModel, reads: nat)
    requires
        reached(state),
        !(state is Index),
        reads >= reads_left(state),
    ensures
        run(state, request, files, reads) is Some,
        run(state, request, files, reads) == run(state, request, files, reads_left(state)),
        run(state, request, files, reads) matches Some(Ok(dir)) ==> dir_keyed_by_index(dir),
    decreases reads,
{
    let read = files(request);
    step_keeps_reached(state, read);
    if let StepModel::Read(next, wanted) = step(state, read) {
        load_ends(next, wanted, files, (reads - 1) as nat);
        load_ends(next, wanted, files, (reads_left(state) - 1) as nat);
    }
}

/// The load of a layout from its start: the index is read, then for each
/// manifest descriptor of the index, in their order, the manifest and its
/// configuration. `None` only where the load does not end, which
/// [`load_is_total`] excludes.
pub open spec fn load(files: spec_fn(RequestModel) -> ReadModel) -> Option<Result<DirModel, Failure>> {
    match step(LoaderModel::Index, files(RequestModel::Index)) {
        StepModel::Loaded(dir) => Some(Ok(dir)),
        StepModel::Failed(failure) => Some(Err(failure)),
        StepModel::Read(next, wanted) => run(next, wanted, files, reads_left(next)),
    }
}

/// End-to-end load: whatever the files hold, a load from the start ends,
/// with a failure or with a layout; it needs no more than one read for the
/// index and two for each of its manifest descriptors; and the layout holds no
/// manifest but under the digest string of a manifest descriptor of its index.
pub proof fn load_is_total(files: spec_fn(RequestModel) -> ReadModel)
    ensures
        load(files) is Some,
        load(files) matches Some(Ok(dir)) ==> dir_keyed_by_index(dir),
        forall|reads: nat|
            run(LoaderModel::Index, RequestModel::Index, files, reads) is Some ==> #[trigger] run(
                LoaderModel::Index,
                RequestModel::Index,
                files,
                reads,
            ) == load(files),
{
    let read = files(RequestModel::Index);
    step_keeps_reached(LoaderModel::Index, read);
    if let StepModel::Read(next, wanted) = step(LoaderModel::Index, read) {
        load_ends(next, wanted, files, reads_left(next));
        assert forall|reads: nat| run(LoaderModel::Index, RequestModel::Index, files, reads) is Some implies #[trigger] run(
            LoaderModel::Index,
            RequestModel::Index,
            files,
            reads,
        ) == load(files) by {
            lemma_run_settles(next, wanted, files, (reads - 1) as nat);
        }
    }
}

/// Once a run has ended, the reads that are left give the same end.
proof fn lemma_run_settles(state: LoaderModel, request: RequestModel, files: spec_fn(RequestModel) -> ReadModel, reads: nat)
    requires
        reached(state),
        !(state is Index),
        run(state, request, files, reads) is Some,
    ensures
        run(state, request, files, reads) == run(state, request, files, reads_left(state)),
    decreases reads,
{
    let read = files(request);
    step_keeps_reached(state, read);
    if let StepModel::Read(next, wanted) = step(state, read) {
        lemma_run_settles(next, wanted, files, (reads - 1) as nat);
        load_ends(next, wanted, files, (reads_left(state) - 1) as nat);
    }
}

/// Fail-fast: a load from the start that meets a failure at some read ends
/// with that failure, and a load whose index cannot be read ends at once.
pub proof fn first_failure_ends_the_load(files: spec_fn(RequestModel) -> ReadModel)
    ensures
        step(LoaderModel::Index, files(RequestModel::Index)) matches StepModel::Failed(failure) ==> load(files) == Some(
            Err::<DirModel, Failure>(failure),
        ),
        forall|state: LoaderModel, request: RequestModel, reads: nat|
            reads > 0 && step(state, files(request)) is Failed ==> #[trigger] run(state, request, files, reads)
                == Some(Err::<DirModel, Failure>(step(state, files(request))->Failed_0)),
{
}

} // verus!
