//! The image layout on disk, and how it is loaded: the index, then each
//! manifest that the index lists, then the configuration of each manifest.

use vstd::prelude::*;
use crate::config::{config_of, Config, ConfigModel};
use crate::descriptor::{resolution_of, Resolution, ResolutionModel};
use crate::digest::{is_digest, Digest};
use crate::emit::{object_json, Fields};
use crate::error::{
    invalid, violation, Document, DocumentError, DocumentModel, Failure, OCIDirError, Rule,
    ValidationError, Violation,
};
use crate::fields::{deep, required};
use crate::index::{index_of, ImageIndex, IndexModel};
use crate::json::{
    find, json_document, json_of, lookup, text_value, value_as_str, value_entries, Json,
};
use crate::manifest::{image_manifest_of, ImageManifest, ManifestDocumentModel};
use crate::ordered::upsert;
use crate::text::{owned, str_eq};

verus! {

/// The version of the image layout.
#[derive(Clone, Copy, Debug, PartialEq, Eq, Structural)]
pub enum ImageLayoutVersion {
    /// `1.0.0`.
    OneZeroZero,
}

impl DeepView for ImageLayoutVersion {
    type V = ImageLayoutVersion;

    open spec fn deep_view(&self) -> ImageLayoutVersion {
        *self
    }
}

/// The version of the image layout: the string `1.0.0`.
pub open spec fn layout_version_of(j: Json, field: Seq<char>) -> Result<ImageLayoutVersion, Violation> {
    match j {
        Json::Text(t) => if t == "1.0.0"@ {
            Ok(ImageLayoutVersion::OneZeroZero)
        } else {
            Err(violation(Rule::UnknownVariant, field))
        },
        _ => Err(violation(Rule::WrongType, field)),
    }
}

/// [`layout_version_of`] at `field`, as a function of the value.
pub open spec fn layout_version_decoder(field: Seq<char>) -> spec_fn(Json) -> Result<ImageLayoutVersion, Violation> {
    |j: Json| layout_version_of(j, field)
}

/// The JSON form of the version of the image layout.
pub open spec fn layout_version_json(version: ImageLayoutVersion) -> Json {
    match version {
        ImageLayoutVersion::OneZeroZero => Json::Text("1.0.0"@),
    }
}

impl ImageLayoutVersion {
    /// Writes the version as a JSON value.
    pub fn to_json(&self) -> (r: serde_json::Value)
        ensures
            json_of(r) == layout_version_json(*self),
    {
        match self {
            ImageLayoutVersion::OneZeroZero => text_value(owned("1.0.0")),
        }
    }

    /// Reads the version from the JSON value at `field`.
    pub fn from_json(v: &serde_json::Value, field: &str) -> (r: Result<ImageLayoutVersion, ValidationError>)
        ensures
            deep(r) == layout_version_of(json_of(*v), field@),
    {
        match value_as_str(v) {
            Some(t) => if str_eq(t, "1.0.0") {
                Ok(ImageLayoutVersion::OneZeroZero)
            } else {
                Err(invalid(Rule::UnknownVariant, field))
            },
            None => Err(invalid(Rule::WrongType, field)),
        }
    }
}

/// The marker of an image layout: what the file `oci-layout` holds.
#[derive(Clone, Copy, Debug, PartialEq, Eq, Structural)]
pub struct ImageLayout {
    image_layout_version: ImageLayoutVersion,
}

impl DeepView for ImageLayout {
    type V = ImageLayoutVersion;

    /// The version.
    closed spec fn deep_view(&self) -> ImageLayoutVersion {
        self.image_layout_version
    }
}

/// What a JSON value stands for as the marker of an image layout: an
/// object with the version under `imageLayoutVersion`. Other fields are
/// passed over. A value that is no object fails at the field of the empty name.
pub open spec fn image_layout_of(j: Json) -> Result<ImageLayoutVersion, Violation> {
    match j {
        Json::Object(es) => required(
            lookup(es, "imageLayoutVersion"@),
            "imageLayoutVersion"@,
            layout_version_decoder("imageLayoutVersion"@),
        ),
        _ => Err(violation(Rule::WrongType, ""@)),
    }
}

/// The JSON form of the marker of an image layout.
pub open spec fn image_layout_json(version: ImageLayoutVersion) -> Json {
    object_json(seq![("imageLayoutVersion"@, Some(layout_version_json(version)))])
}

impl ImageLayout {
    /// Writes the marker as a JSON value.
    pub fn to_json(&self) -> (r: serde_json::Value)
        ensures
            json_of(r) == image_layout_json(self.deep_view()),
    {
        let fields = Fields::new().put("imageLayoutVersion", self.image_layout_version.to_json());
        proof {
            assert(fields.table() =~= seq![
                ("imageLayoutVersion"@, Some(layout_version_json(self.deep_view()))),
            ]);
        }
        fields.finish()
    }

    /// The marker of a layout of this version.
    pub fn new(version: ImageLayoutVersion) -> (r: ImageLayout)
        ensures
            r.deep_view() == version,
    {
        ImageLayout { image_layout_version: version }
    }

    /// The version.
    pub fn version(&self) -> (r: ImageLayoutVersion)
        ensures
            r == self.deep_view(),
    {
        self.image_layout_version
    }

    /// Reads the marker from a JSON value.
    pub fn from_json(v: &serde_json::Value) -> (r: Result<ImageLayout, ValidationError>)
        ensures
            deep(r) == image_layout_of(json_of(*v)),
    {
        let items = match value_entries(v) {
            Some(items) => items,
            None => {
                return Err(invalid(Rule::WrongType, ""));
            },
        };
        match find(&items, "imageLayoutVersion") {
            Some(x) => match ImageLayoutVersion::from_json(x, "imageLayoutVersion") {
                Ok(version) => Ok(ImageLayout { image_layout_version: version }),
                Err(e) => Err(e),
            },
            None => Err(invalid(Rule::MissingField, "imageLayoutVersion")),
        }
    }
}

/// What a map from digest strings to manifests holds, in its order.
pub uninterp spec fn manifest_entries(m: indexmap::IndexMap<String, ImageManifest>) -> Seq<(Seq<char>, ManifestDocumentModel)>;

/// What a map from digest strings to configurations holds, in its order.
pub uninterp spec fn config_entries(m: indexmap::IndexMap<String, Config>) -> Seq<(Seq<char>, ConfigModel)>;

/// `IndexMap::new`: a map without entries.
#[verifier::external_body]
fn manifest_map_new() -> (m: indexmap::IndexMap<String, ImageManifest>)
    ensures
        manifest_entries(m) == Seq::<(Seq<char>, ManifestDocumentModel)>::empty(),
{
    indexmap::IndexMap::new()
}

/// `IndexMap::insert`: replaces the value of a key the map has, in place,
/// and appends any other key.
#[verifier::external_body]
fn manifest_map_insert(m: &mut indexmap::IndexMap<String, ImageManifest>, key: String, value: ImageManifest)
    ensures
        manifest_entries(*final(m)) == upsert(manifest_entries(*old(m)), key@, value.deep_view()),
{
    m.insert(key, value);
}

/// `IndexMap::new`: a map without entries.
#[verifier::external_body]
fn config_map_new() -> (m: indexmap::IndexMap<String, Config>)
    ensures
        config_entries(m) == Seq::<(Seq<char>, ConfigModel)>::empty(),
{
    indexmap::IndexMap::new()
}

/// `IndexMap::insert`: replaces the value of a key the map has, in place,
/// and appends any other key.
#[verifier::external_body]
fn config_map_insert(m: &mut indexmap::IndexMap<String, Config>, key: String, value: Config)
    ensures
        config_entries(*final(m)) == upsert(config_entries(*old(m)), key@, value.deep_view()),
{
    m.insert(key, value);
}

/// A loaded layout: the index, and the manifests and configurations that
/// it leads to, each under the digest string of the descriptor that named it.
#[derive(Debug)]
pub struct OCIDir {
    pub index: ImageIndex,
    pub manifests: indexmap::IndexMap<String, ImageManifest>,
    pub configs: indexmap::IndexMap<String, Config>,
}

/// What a loaded layout holds.
pub struct DirModel {
    pub index: IndexModel,
    pub manifests: Seq<(Seq<char>, ManifestDocumentModel)>,
    pub configs: Seq<(Seq<char>, ConfigModel)>,
}

impl DeepView for OCIDir {
    type V = DirModel;

    open spec fn deep_view(&self) -> DirModel {
        DirModel {
            index: self.index.deep_view(),
            manifests: manifest_entries(self.manifests),
            configs: config_entries(self.configs),
        }
    }
}

impl OCIDir {
    /// Begins to open a layout: the load, which waits for the index, and
    /// its first request. The caller reads the file of each request and
    /// hands what it got to [`Loader::feed`], until the load has ended.
    pub fn open() -> (r: (Loader, Request))
        ensures
            r.0.deep_view() == LoaderModel::Index,
            r.1@ == RequestModel::Index,
    {
        (Loader::waiting_for_index(), Request::Index)
    }
}

/// What the file system answers to a read.
#[derive(Debug)]
pub enum BlobRead {
    /// The contents of the file.
    Found(Vec<u8>),
    /// There is no such file.
    Missing(std::io::Error),
    /// The read failed otherwise.
    Failed(std::io::Error),
}

/// What the file system answers to a read, without the error's payload.
pub enum ReadModel {
    Found(Seq<u8>),
    Missing,
    Failed,
}

impl View for BlobRead {
    type V = ReadModel;

    open spec fn view(&self) -> ReadModel {
        match *self {
            BlobRead::Found(bytes) => ReadModel::Found(bytes@),
            BlobRead::Missing(_) => ReadModel::Missing,
            BlobRead::Failed(_) => ReadModel::Failed,
        }
    }
}

/// The error that came with an answer.
pub open spec fn read_error(read: BlobRead) -> Option<std::io::Error> {
    match read {
        BlobRead::Found(_) => None,
        BlobRead::Missing(e) => Some(e),
        BlobRead::Failed(e) => Some(e),
    }
}

/// The file that a load asks for.
#[derive(Debug)]
pub enum Request {
    /// `index.json`.
    Index,
    /// `blobs/<algorithm>/<encoded>` of this digest.
    Blob(Digest),
}

/// The file that a load asks for; a blob by its digest string.
pub enum RequestModel {
    Index,
    Blob(Seq<char>),
}

impl View for Request {
    type V = RequestModel;

    open spec fn view(&self) -> RequestModel {
        match *self {
            Request::Index => RequestModel::Index,
            Request::Blob(digest) => RequestModel::Blob(digest@),
        }
    }
}

/// The path of a request below the root of the layout.
pub open spec fn request_path(request: RequestModel) -> Seq<char> {
    match request {
        RequestModel::Index => "index.json"@,
        RequestModel::Blob(digest) => crate::digest::blob_path_of(digest),
    }
}

impl Request {
    /// The path of the file below the root of the layout.
    pub fn path(&self) -> (r: String)
        ensures
            r@ == request_path(self@),
    {
        match self {
            Request::Index => owned("index.json"),
            Request::Blob(digest) => digest.blob_path(),
        }
    }
}

/// How far a load has come: the index, the position in it of the manifest
/// descriptor in work, and what was loaded for the positions before it.
pub struct ProgressModel {
    pub index: IndexModel,
    pub position: int,
    pub manifests: Seq<(Seq<char>, ManifestDocumentModel)>,
    pub configs: Seq<(Seq<char>, ConfigModel)>,
}

/// The state of a load: what it waits for.
pub enum LoaderModel {
    /// `index.json`.
    Index,
    /// The blob of the manifest descriptor in work.
    Manifest(ProgressModel),
    /// The blob of the configuration of this manifest, which is the one of
    /// the manifest descriptor in work.
    Config(ProgressModel, ManifestDocumentModel),
}

/// What a load does on an answer of the file system.
pub enum StepModel {
    /// It goes on in this state, and asks for this file.
    Read(LoaderModel, RequestModel),
    /// It ends with the layout.
    Loaded(DirModel),
    /// It ends with a failure; nothing of what was loaded is handed out.
    Failed(Failure),
}

/// The digest string of the manifest descriptor in work.
pub open spec fn digest_in_work(p: ProgressModel) -> Seq<char> {
    p.index.manifests[p.position].digest
}

/// Turns to the manifest descriptor at the position of `p`: the load ends
/// where the index has none there, else it asks for the manifest's blob.
pub open spec fn turn_to(p: ProgressModel) -> StepModel {
    if p.position >= p.index.manifests.len() {
        StepModel::Loaded(DirModel { index: p.index, manifests: p.manifests, configs: p.configs })
    } else if is_digest(digest_in_work(p)) {
        StepModel::Read(LoaderModel::Manifest(p), RequestModel::Blob(digest_in_work(p)))
    } else {
        StepModel::Failed(Failure::MalformedDigest(digest_in_work(p)))
    }
}

/// Reads the text of the configuration of the manifest `m`, which is the
/// one of the descriptor in work: the manifest and the configuration go
/// into the maps, each under the digest string of its descriptor, where a
/// later entry replaces an earlier one of the same key; then the load turns to
/// the next descriptor.
pub open spec fn take_config(p: ProgressModel, m: ManifestDocumentModel, text: Seq<u8>) -> StepModel {
    match json_document(text) {
        None => StepModel::Failed(Failure::Syntax(DocumentModel::Blob(m.config.digest))),
        Some(j) => match config_of(j) {
            Err(v) => StepModel::Failed(Failure::Invalid(DocumentModel::Blob(m.config.digest), v)),
            Ok(c) => turn_to(
                ProgressModel {
                    index: p.index,
                    position: p.position + 1,
                    manifests: upsert(p.manifests, digest_in_work(p), m),
                    configs: upsert(p.configs, m.config.digest, c),
                },
            ),
        },
    }
}

/// Reads the text of the manifest of the descriptor in work, and resolves
/// its configuration: from the inline data where the descriptor has some,
/// without a read; else by a read of the blob of its digest.
pub open spec fn take_manifest(p: ProgressModel, text: Seq<u8>) -> StepModel {
    let document = DocumentModel::Blob(digest_in_work(p));
    match json_document(text) {
        None => StepModel::Failed(Failure::Syntax(document)),
        Some(j) => match image_manifest_of(j) {
            Err(v) => StepModel::Failed(Failure::Invalid(document, v)),
            Ok(m) => match resolution_of(m.config) {
                Ok(ResolutionModel::Inline(inline)) => take_config(p, m, inline),
                Ok(ResolutionModel::File(digest)) => StepModel::Read(
                    LoaderModel::Config(p, m),
                    RequestModel::Blob(digest),
                ),
                Err(failure) => StepModel::Failed(failure),
            },
        },
    }
}

/// Reads the text of the index and turns to its first manifest descriptor.
pub open spec fn take_index(text: Seq<u8>) -> StepModel {
    match json_document(text) {
        None => StepModel::Failed(Failure::Syntax(DocumentModel::Index)),
        Some(j) => match index_of(j) {
            Err(v) => StepModel::Failed(Failure::Invalid(DocumentModel::Index, v)),
            Ok(index) => turn_to(
                ProgressModel { index, position: 0, manifests: Seq::empty(), configs: Seq::empty() },
            ),
        },
    }
}

/// What a load in `state` does on the answer `read` to its request. The
/// first failure ends the load. A blob that is missing is `BlobNotFound`;
/// the index is no blob, and its absence a failure of the file system.
pub open spec fn step(state: LoaderModel, read: ReadModel) -> StepModel {
    match state {
        LoaderModel::Index => match read {
            ReadModel::Found(text) => take_index(text),
            _ => StepModel::Failed(Failure::Io(DocumentModel::Index)),
        },
        LoaderModel::Manifest(p) => match read {
            ReadModel::Found(text) => take_manifest(p, text),
            ReadModel::Missing => StepModel::Failed(Failure::BlobNotFound(digest_in_work(p))),
            ReadModel::Failed => StepModel::Failed(Failure::Io(DocumentModel::Blob(digest_in_work(p)))),
        },
        LoaderModel::Config(p, m) => match read {
            ReadModel::Found(text) => take_config(p, m, text),
            ReadModel::Missing => StepModel::Failed(Failure::BlobNotFound(m.config.digest)),
            ReadModel::Failed => StepModel::Failed(Failure::Io(DocumentModel::Blob(m.config.digest))),
        },
    }
}

#[derive(Debug)]
struct Progress {
    index: ImageIndex,
    position: usize,
    manifests: indexmap::IndexMap<String, ImageManifest>,
    configs: indexmap::IndexMap<String, Config>,
}

impl Progress {
    spec fn model(&self) -> ProgressModel {
        ProgressModel {
            index: self.index.deep_view(),
            position: self.position as int,
            manifests: manifest_entries(self.manifests),
            configs: config_entries(self.configs),
        }
    }
}

#[derive(Debug)]
enum Awaited {
    Index,
    Manifest(Progress),
    Config(Progress, ImageManifest),
}

/// A load in progress. The load decides; its caller reads the files.
#[derive(Debug)]
pub struct Loader {
    awaited: Awaited,
}

impl DeepView for Loader {
    type V = LoaderModel;

    closed spec fn deep_view(&self) -> LoaderModel {
        match self.awaited {
            Awaited::Index => LoaderModel::Index,
            Awaited::Manifest(p) => LoaderModel::Manifest(p.model()),
            Awaited::Config(p, m) => LoaderModel::Config(p.model(), m.deep_view()),
        }
    }
}

/// What a load does next.
#[derive(Debug)]
pub enum Step {
    /// It goes on, and asks for this file.
    Read(Loader, Request),
    /// It ended with the layout.
    Loaded(OCIDir),
    /// It ended with a failure.
    Failed(OCIDirError),
}

impl DeepView for Step {
    type V = StepModel;

    open spec fn deep_view(&self) -> StepModel {
        match *self {
            Step::Read(loader, request) => StepModel::Read(loader.deep_view(), request@),
            Step::Loaded(dir) => StepModel::Loaded(dir.deep_view()),
            Step::Failed(e) => StepModel::Failed(e@),
        }
    }
}

fn turn_to_next(p: Progress) -> (r: Step)
    requires
        p.position <= p.index.manifests@.len(),
    ensures
        r.deep_view() == turn_to(p.model()),
{
    if p.position >= p.index.manifests.len() {
        Step::Loaded(OCIDir { index: p.index, manifests: p.manifests, configs: p.configs })
    } else {
        match Digest::parse(p.index.manifests[p.position].digest.as_str()) {
            Ok(digest) => Step::Read(Loader { awaited: Awaited::Manifest(p) }, Request::Blob(digest)),
            Err(e) => Step::Failed(e),
        }
    }
}

fn read_config(p: Progress, m: ImageManifest, text: &[u8]) -> (r: Step)
    requires
        p.position < p.index.manifests@.len(),
    ensures
        r.deep_view() == take_config(p.model(), m.deep_view(), text@),
{
    match Config::from_slice(text) {
        Ok(c) => {
            let manifest_key = p.index.manifests[p.position].digest.clone();
            let config_key = m.config.digest.clone();
            let count = p.index.manifests.len();
            let next = p.position + 1;
            let mut manifests = p.manifests;
            let mut configs = p.configs;
            manifest_map_insert(&mut manifests, manifest_key, m);
            config_map_insert(&mut configs, config_key, c);
            turn_to_next(Progress { index: p.index, position: next, manifests, configs })
        },
        Err(DocumentError::Syntax(e)) => Step::Failed(
            OCIDirError::SerdeJson(Document::Blob(m.config.digest.clone()), e),
        ),
        Err(DocumentError::Invalid(e)) => Step::Failed(
            OCIDirError::Validation(Document::Blob(m.config.digest.clone()), e),
        ),
    }
}

fn read_manifest(p: Progress, text: &[u8]) -> (r: Step)
    requires
        p.position < p.index.manifests@.len(),
    ensures
        r.deep_view() == take_manifest(p.model(), text@),
{
    match ImageManifest::from_slice(text) {
        Ok(m) => match m.config.resolve() {
            Ok(Resolution::Inline(inline)) => read_config(p, m, inline.as_slice()),
            Ok(Resolution::File(digest)) => Step::Read(
                Loader { awaited: Awaited::Config(p, m) },
                Request::Blob(digest),
            ),
            Err(e) => Step::Failed(e),
        },
        Err(DocumentError::Syntax(e)) => Step::Failed(
            OCIDirError::SerdeJson(Document::Blob(p.index.manifests[p.position].digest.clone()), e),
        ),
        Err(DocumentError::Invalid(e)) => Step::Failed(
            OCIDirError::Validation(Document::Blob(p.index.manifests[p.position].digest.clone()), e),
        ),
    }
}

fn read_index(text: &[u8]) -> (r: Step)
    ensures
        r.deep_view() == take_index(text@),
{
    match ImageIndex::from_slice(text) {
        Ok(index) => turn_to_next(
            Progress { index, position: 0, manifests: manifest_map_new(), configs: config_map_new() },
        ),
        Err(DocumentError::Syntax(e)) => Step::Failed(OCIDirError::SerdeJson(Document::Index, e)),
        Err(DocumentError::Invalid(e)) => Step::Failed(OCIDirError::Validation(Document::Index, e)),
    }
}

impl Loader {
    #[verifier::type_invariant]
    spec fn in_range(&self) -> bool {
        match self.awaited {
            Awaited::Index => true,
            Awaited::Manifest(p) => p.position < p.index.manifests@.len(),
            Awaited::Config(p, _) => p.position < p.index.manifests@.len(),
        }
    }

    fn waiting_for_index() -> (r: Loader)
        ensures
            r.deep_view() == LoaderModel::Index,
    {
        Loader { awaited: Awaited::Index }
    }

    /// Takes the answer of the file system to the request of this load, and
    /// says what the load does next. A failure of the file system is handed
    /// on with the error that came with it.
    pub fn feed(self, read: BlobRead) -> (r: Step)
        ensures
            r.deep_view() == step(self.deep_view(), read@),
            r matches Step::Failed(OCIDirError::IO(_, carried)) ==> read_error(read) == Some(carried),
    {
        proof {
            use_type_invariant(&self);
        }
        match self.awaited {
            Awaited::Index => match read {
                BlobRead::Found(text) => read_index(text.as_slice()),
                BlobRead::Missing(e) => Step::Failed(OCIDirError::IO(Document::Index, e)),
                BlobRead::Failed(e) => Step::Failed(OCIDirError::IO(Document::Index, e)),
            },
            Awaited::Manifest(p) => match read {
                BlobRead::Found(text) => read_manifest(p, text.as_slice()),
                BlobRead::Missing(_) => Step::Failed(
                    OCIDirError::BlobNotFound(p.index.manifests[p.position].digest.clone()),
                ),
                BlobRead::Failed(e) => Step::Failed(
                    OCIDirError::IO(Document::Blob(p.index.manifests[p.position].digest.clone()), e),
                ),
            },
            Awaited::Config(p, m) => match read {
                BlobRead::Found(text) => read_config(p, m, text.as_slice()),
                BlobRead::Missing(_) => Step::Failed(OCIDirError::BlobNotFound(m.config.digest.clone())),
                BlobRead::Failed(e) => Step::Failed(
                    OCIDirError::IO(Document::Blob(m.config.digest.clone()), e),
                ),
            },
        }
    }
}

} // verus!
