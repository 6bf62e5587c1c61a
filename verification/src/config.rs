//! The image configuration: what a container runtime needs to run an image.

use vstd::prelude::*;
use crate::emit::{
    filled_text_list, filled_text_list_value, filled_value_map, filled_value_map_value, list_json,
    nullable_text, nullable_text_list, nullable_text_list_value, nullable_text_map,
    nullable_text_map_value, nullable_text_value, nullable_value_map, nullable_value_map_value,
    object_json, opt_json, some_text, some_text_value, some_timestamp, some_timestamp_value,
    text_list_json, text_list_value, Fields,
};
use crate::error::{invalid, violation, DocumentError, Rule, ValidationError, Violation};
use crate::fields::{
    bool_decoder, deep, defaulted, defaulted_text_list, defaulted_value_map, fail, find_present,
    flag, lemma_try_map_fails, lemma_try_map_step, list_decoder, list_of, opt_text_entries,
    opt_value_entries, optional, optional_text, optional_text_list, optional_text_map,
    optional_timestamp, optional_value_map, reject_unknown, required, required_text,
    required_text_list, strict, text_decoder, text_list_decoder, text_map_decoder,
    timestamp_decoder, try_map, value_map_decoder, Shape,
};
use crate::json::{
    array_value, bool_value, distinct_keys, find, json_document, json_of, lookup, parse_value,
    text_value, value_as_array, value_as_str, value_entries, values_model, Json,
};
use crate::ordered::value_entries_of;
use crate::text::{opt_text, owned, spelled, str_eq};
use crate::timestamp::{opt_instant, Timestamp};

verus! {

/// The kind of a root file system.
#[derive(Clone, Copy, Debug, PartialEq, Eq, Structural)]
pub enum RootFSKind {
    /// `layers`: a stack of layers.
    Layers,
}

impl DeepView for RootFSKind {
    type V = RootFSKind;

    open spec fn deep_view(&self) -> RootFSKind {
        *self
    }
}

/// The kind of a root file system: the string `layers`.
pub open spec fn rootfs_kind_of(j: Json, field: Seq<char>) -> Result<RootFSKind, Violation> {
    match j {
        Json::Text(t) => if t == "layers"@ {
            Ok(RootFSKind::Layers)
        } else {
            Err(violation(Rule::UnknownVariant, field))
        },
        _ => Err(violation(Rule::WrongType, field)),
    }
}

/// [`rootfs_kind_of`] at `field`, as a function of the value.
pub open spec fn rootfs_kind_decoder(field: Seq<char>) -> spec_fn(Json) -> Result<RootFSKind, Violation> {
    |j: Json| rootfs_kind_of(j, field)
}

/// The JSON form of the kind of a root file system.
pub open spec fn rootfs_kind_json(kind: RootFSKind) -> Json {
    match kind {
        RootFSKind::Layers => Json::Text("layers"@),
    }
}

impl RootFSKind {
    /// Writes the kind as a JSON value.
    pub fn to_json(&self) -> (r: serde_json::Value)
        ensures
            json_of(r) == rootfs_kind_json(*self),
    {
        match self {
            RootFSKind::Layers => text_value(owned("layers")),
        }
    }

    /// Reads the kind from the JSON value at `field`.
    pub fn from_json(v: &serde_json::Value, field: &str) -> (r: Result<RootFSKind, ValidationError>)
        ensures
            deep(r) == rootfs_kind_of(json_of(*v), field@),
    {
        match value_as_str(v) {
            Some(t) => if str_eq(t, "layers") {
                Ok(RootFSKind::Layers)
            } else {
                Err(invalid(Rule::UnknownVariant, field))
            },
            None => Err(invalid(Rule::WrongType, field)),
        }
    }
}

/// The root file system of an image: the digests of its uncompressed layers,
/// in the order in which they are applied, base first.
#[derive(Clone, Debug, PartialEq, Eq)]
pub struct RootFS {
    /// `type`.
    pub kind: RootFSKind,
    pub diff_ids: Vec<String>,
}

/// What a root file system holds.
pub struct RootFSModel {
    pub kind: RootFSKind,
    pub diff_ids: Seq<Seq<char>>,
}

impl DeepView for RootFS {
    type V = RootFSModel;

    open spec fn deep_view(&self) -> RootFSModel {
        RootFSModel { kind: self.kind, diff_ids: self.diff_ids.deep_view() }
    }
}

/// What a JSON value stands for as a root file system at `field`. Fields
/// that a root file system does not have are passed over.
pub open spec fn rootfs_of(j: Json, field: Seq<char>) -> Result<RootFSModel, Violation> {
    match j {
        Json::Object(es) => {
            let kind = required(lookup(es, "type"@), "type"@, rootfs_kind_decoder("type"@));
            let diff_ids = required(lookup(es, "diff_ids"@), "diff_ids"@, text_list_decoder("diff_ids"@));
            if kind is Err {
                fail(kind)
            } else if diff_ids is Err {
                fail(diff_ids)
            } else {
                Ok(RootFSModel { kind: kind->Ok_0, diff_ids: diff_ids->Ok_0 })
            }
        },
        _ => Err(violation(Rule::WrongType, field)),
    }
}

/// [`rootfs_of`] at `field`, as a function of the value.
pub open spec fn rootfs_decoder(field: Seq<char>) -> spec_fn(Json) -> Result<RootFSModel, Violation> {
    |j: Json| rootfs_of(j, field)
}

/// The fields that a root file system is written with.
pub open spec fn rootfs_fields(fs: RootFSModel) -> Seq<(Seq<char>, Option<Json>)> {
    seq![("type"@, Some(rootfs_kind_json(fs.kind))), ("diff_ids"@, Some(text_list_json(fs.diff_ids)))]
}

/// The JSON form of a root file system.
pub open spec fn rootfs_json(fs: RootFSModel) -> Json {
    object_json(rootfs_fields(fs))
}

/// The fields of a root file system have distinct names.
pub proof fn lemma_rootfs_keys(x: RootFSModel)
    ensures
        distinct_keys(rootfs_fields(x)),
{
    reveal_strlit("type");
    reveal_strlit("diff_ids");
    assert(spelled("type"@, 4, 't', 'y'));
    assert(spelled("diff_ids"@, 8, 'd', 'i'));
}

impl RootFS {
    /// Writes the root file system as a JSON value.
    pub fn to_json(&self) -> (r: serde_json::Value)
        ensures
            json_of(r) == rootfs_json(self.deep_view()),
    {
        let fields = Fields::new().put("type", self.kind.to_json()).put(
            "diff_ids",
            text_list_value(&self.diff_ids),
        );
        proof {
            lemma_rootfs_keys(self.deep_view());
            assert(fields.table() =~= rootfs_fields(self.deep_view()));
        }
        fields.finish()
    }

    /// Reads a root file system from the JSON value at `field`.
    pub fn from_json(v: &serde_json::Value, field: &str) -> (r: Result<RootFS, ValidationError>)
        ensures
            deep(r) == rootfs_of(json_of(*v), field@),
    {
        let items = match value_entries(v) {
            Some(items) => items,
            None => {
                return Err(invalid(Rule::WrongType, field));
            },
        };
        let kind = match find(&items, "type") {
            Some(x) => match RootFSKind::from_json(x, "type") {
                Ok(k) => k,
                Err(e) => {
                    return Err(e);
                },
            },
            None => {
                return Err(invalid(Rule::MissingField, "type"));
            },
        };
        let diff_ids = match required_text_list(&items, "diff_ids") {
            Ok(x) => x,
            Err(e) => {
                return Err(e);
            },
        };
        Ok(RootFS { kind, diff_ids })
    }
}

/// The record of how one layer came about.
#[derive(Clone, Debug, PartialEq, Eq)]
pub struct HistoryEntry {
    pub created: Option<Timestamp>,
    pub author: Option<String>,
    pub created_by: Option<String>,
    pub comment: Option<String>,
    /// Whether the entry has no layer of its own in the file system.
    pub empty_layer: bool,
}

/// What a history entry holds.
pub struct HistoryModel {
    pub created: Option<(i64, u32)>,
    pub author: Option<Seq<char>>,
    pub created_by: Option<Seq<char>>,
    pub comment: Option<Seq<char>>,
    pub empty_layer: bool,
}

impl DeepView for HistoryEntry {
    type V = HistoryModel;

    open spec fn deep_view(&self) -> HistoryModel {
        HistoryModel {
            created: opt_instant(self.created),
            author: opt_text(self.author),
            created_by: opt_text(self.created_by),
            comment: opt_text(self.comment),
            empty_layer: self.empty_layer,
        }
    }
}

/// What a JSON value stands for as a history entry at `field`. Fields that
/// a history entry does not have are passed over.
pub open spec fn history_of(j: Json, field: Seq<char>) -> Result<HistoryModel, Violation> {
    match j {
        Json::Object(es) => {
            let created = optional(lookup(es, "created"@), timestamp_decoder("created"@));
            let author = optional(lookup(es, "author"@), text_decoder("author"@));
            let created_by = optional(lookup(es, "created_by"@), text_decoder("created_by"@));
            let comment = optional(lookup(es, "comment"@), text_decoder("comment"@));
            let empty_layer = defaulted(lookup(es, "empty_layer"@), false, bool_decoder("empty_layer"@));
            if created is Err {
                fail(created)
            } else if author is Err {
                fail(author)
            } else if created_by is Err {
                fail(created_by)
            } else if comment is Err {
                fail(comment)
            } else if empty_layer is Err {
                fail(empty_layer)
            } else {
                Ok(
                    HistoryModel {
                        created: created->Ok_0,
                        author: author->Ok_0,
                        created_by: created_by->Ok_0,
                        comment: comment->Ok_0,
                        empty_layer: empty_layer->Ok_0,
                    },
                )
            }
        },
        _ => Err(violation(Rule::WrongType, field)),
    }
}

/// [`history_of`] at `field`, as a function of the value.
pub open spec fn history_decoder(field: Seq<char>) -> spec_fn(Json) -> Result<HistoryModel, Violation> {
    |j: Json| history_of(j, field)
}

/// The fields that a history entry is written with: the flag always, each
/// other where it has a value.
pub open spec fn history_fields(h: HistoryModel) -> Seq<(Seq<char>, Option<Json>)> {
    seq![
        ("created"@, some_timestamp(h.created)),
        ("author"@, some_text(h.author)),
        ("created_by"@, some_text(h.created_by)),
        ("comment"@, some_text(h.comment)),
        ("empty_layer"@, Some(Json::Bool(h.empty_layer))),
    ]
}

/// The JSON form of a history entry.
pub open spec fn history_json(h: HistoryModel) -> Json {
    object_json(history_fields(h))
}

/// [`history_json`], as a function.
pub open spec fn history_encoder() -> spec_fn(HistoryModel) -> Json {
    |h: HistoryModel| history_json(h)
}

/// A list of history entries, unless it is empty.
pub open spec fn filled_history(l: Seq<HistoryModel>) -> Option<Json> {
    if l.len() == 0 {
        None
    } else {
        Some(list_json(l, history_encoder()))
    }
}

/// The fields of a history entry have distinct names.
pub proof fn lemma_history_keys(x: HistoryModel)
    ensures
        distinct_keys(history_fields(x)),
{
    reveal_strlit("created");
    reveal_strlit("author");
    reveal_strlit("created_by");
    reveal_strlit("comment");
    reveal_strlit("empty_layer");
    assert(spelled("created"@, 7, 'c', 'r'));
    assert(spelled("author"@, 6, 'a', 'u'));
    assert(spelled("created_by"@, 10, 'c', 'r'));
    assert(spelled("comment"@, 7, 'c', 'o'));
    assert(spelled("empty_layer"@, 11, 'e', 'm'));
}

impl HistoryEntry {
    /// Writes the history entry as a JSON value.
    pub fn to_json(&self) -> (r: serde_json::Value)
        ensures
            json_of(r) == history_json(self.deep_view()),
    {
        let fields = Fields::new().put_some("created", some_timestamp_value(&self.created)).put_some(
            "author",
            some_text_value(&self.author),
        ).put_some("created_by", some_text_value(&self.created_by)).put_some(
            "comment",
            some_text_value(&self.comment),
        ).put("empty_layer", bool_value(self.empty_layer));
        proof {
            lemma_history_keys(self.deep_view());
            assert(fields.table() =~= history_fields(self.deep_view()));
        }
        fields.finish()
    }

    /// Writes a list of history entries as a JSON array, unless it is empty.
    pub fn list_to_json(list: &Vec<HistoryEntry>) -> (r: Option<serde_json::Value>)
        ensures
            opt_json(r) == filled_history(list.deep_view()),
    {
        if list.len() == 0 {
            return None;
        }
        let mut out: Vec<serde_json::Value> = Vec::new();
        let mut i: usize = 0;
        while i < list.len()
            invariant
                i <= list@.len(),
                out@.len() == i,
                forall|j: int| 0 <= j < i ==> json_of(#[trigger] out@[j]) == history_json(list@[j].deep_view()),
            decreases list@.len() - i,
        {
            out.push(list[i].to_json());
            i += 1;
        }
        proof {
            let model = list.deep_view();
            assert(values_model(out@) =~= Seq::new(model.len(), |i: int| history_encoder()(model[i])));
        }
        Some(array_value(out))
    }

    /// Reads a history entry from the JSON value at `field`.
    pub fn from_json(v: &serde_json::Value, field: &str) -> (r: Result<HistoryEntry, ValidationError>)
        ensures
            deep(r) == history_of(json_of(*v), field@),
    {
        let items = match value_entries(v) {
            Some(items) => items,
            None => {
                return Err(invalid(Rule::WrongType, field));
            },
        };
        let created = match optional_timestamp(&items, "created") {
            Ok(x) => x,
            Err(e) => {
                return Err(e);
            },
        };
        let author = match optional_text(&items, "author") {
            Ok(x) => x,
            Err(e) => {
                return Err(e);
            },
        };
        let created_by = match optional_text(&items, "created_by") {
            Ok(x) => x,
            Err(e) => {
                return Err(e);
            },
        };
        let comment = match optional_text(&items, "comment") {
            Ok(x) => x,
            Err(e) => {
                return Err(e);
            },
        };
        let empty_layer = match flag(&items, "empty_layer") {
            Ok(x) => x,
            Err(e) => {
                return Err(e);
            },
        };
        Ok(HistoryEntry { created, author, created_by, comment, empty_layer })
    }

    /// Reads an array of history entries from the JSON value at `field`.
    pub fn list_from_json(v: &serde_json::Value, field: &str) -> (r: Result<Vec<HistoryEntry>, ValidationError>)
        ensures
            deep(r) == list_of(json_of(*v), field@, history_decoder(field@)),
    {
        let items = match value_as_array(v) {
            Some(items) => items,
            None => {
                return Err(invalid(Rule::WrongType, field));
            },
        };
        let ghost model = values_model(items@);
        let ghost f = history_decoder(field@);
        let mut out: Vec<HistoryEntry> = Vec::new();
        let mut i: usize = 0;
        proof {
            assert(model.take(0) =~= Seq::<Json>::empty());
            assert(out.deep_view() =~= Seq::<HistoryModel>::empty());
        }
        while i < items.len()
            invariant
                i <= items@.len(),
                model == values_model(items@),
                f == history_decoder(field@),
                json_of(*v) == Json::Array(model),
                try_map(model.take(i as int), f) == Ok::<Seq<HistoryModel>, Violation>(out.deep_view()),
            decreases items@.len() - i,
        {
            proof {
                lemma_try_map_step(model, f, i as int);
            }
            match HistoryEntry::from_json(&items[i], field) {
                Ok(h) => {
                    let ghost before = out.deep_view();
                    out.push(h);
                    proof {
                        assert(out.deep_view() =~= before.push(h.deep_view()));
                    }
                },
                Err(e) => {
                    proof {
                        lemma_try_map_fails(model, f, i as int + 1);
                    }
                    return Err(e);
                },
            }
            i += 1;
        }
        proof {
            assert(model.take(i as int) =~= model);
        }
        Ok(out)
    }
}

/// The defaults with which a container of the image is run.
#[derive(Debug)]
pub struct AppConfig {
    pub user: Option<String>,
    /// The ports to expose, under non-empty keys.
    pub exposed_ports: indexmap::IndexMap<String, serde_json::Value>,
    pub env: Vec<String>,
    pub entrypoint: Option<Vec<String>>,
    pub cmd: Option<Vec<String>>,
    /// The mount points, under non-empty keys.
    pub volumes: Option<indexmap::IndexMap<String, serde_json::Value>>,
    pub working_dir: Option<String>,
    /// Labels, under non-empty keys.
    pub labels: Option<indexmap::IndexMap<String, String>>,
    pub stop_signal: Option<String>,
    pub args_escaped: bool,
}

/// What the defaults of a container hold.
pub struct AppConfigModel {
    pub user: Option<Seq<char>>,
    pub exposed_ports: Seq<(Seq<char>, Json)>,
    pub env: Seq<Seq<char>>,
    pub entrypoint: Option<Seq<Seq<char>>>,
    pub cmd: Option<Seq<Seq<char>>>,
    pub volumes: Option<Seq<(Seq<char>, Json)>>,
    pub working_dir: Option<Seq<char>>,
    pub labels: Option<Seq<(Seq<char>, Seq<char>)>>,
    pub stop_signal: Option<Seq<char>>,
    pub args_escaped: bool,
}

impl DeepView for AppConfig {
    type V = AppConfigModel;

    open spec fn deep_view(&self) -> AppConfigModel {
        AppConfigModel {
            user: opt_text(self.user),
            exposed_ports: value_entries_of(self.exposed_ports),
            env: self.env.deep_view(),
            entrypoint: self.entrypoint.deep_view(),
            cmd: self.cmd.deep_view(),
            volumes: opt_value_entries(self.volumes),
            working_dir: opt_text(self.working_dir),
            labels: opt_text_entries(self.labels),
            stop_signal: opt_text(self.stop_signal),
            args_escaped: self.args_escaped,
        }
    }
}

/// What a JSON value stands for as the defaults of a container at `field`.
/// Fields that the defaults do not have are passed over.
pub open spec fn app_config_of(j: Json, field: Seq<char>) -> Result<AppConfigModel, Violation> {
    match j {
        Json::Object(es) => {
            let user = optional(lookup(es, "User"@), text_decoder("User"@));
            let exposed_ports = defaulted(
                lookup(es, "ExposedPorts"@),
                Seq::<(Seq<char>, Json)>::empty(),
                value_map_decoder("ExposedPorts"@),
            );
            let env = defaulted(lookup(es, "Env"@), Seq::<Seq<char>>::empty(), text_list_decoder("Env"@));
            let entrypoint = optional(lookup(es, "Entrypoint"@), text_list_decoder("Entrypoint"@));
            let cmd = optional(lookup(es, "Cmd"@), text_list_decoder("Cmd"@));
            let volumes = optional(lookup(es, "Volumes"@), value_map_decoder("Volumes"@));
            let working_dir = optional(lookup(es, "WorkingDir"@), text_decoder("WorkingDir"@));
            let labels = optional(lookup(es, "Labels"@), text_map_decoder("Labels"@));
            let stop_signal = optional(lookup(es, "StopSignal"@), text_decoder("StopSignal"@));
            let args_escaped = defaulted(lookup(es, "ArgsEscaped"@), false, bool_decoder("ArgsEscaped"@));
            if user is Err {
                fail(user)
            } else if exposed_ports is Err {
                fail(exposed_ports)
            } else if env is Err {
                fail(env)
            } else if entrypoint is Err {
                fail(entrypoint)
            } else if cmd is Err {
                fail(cmd)
            } else if volumes is Err {
                fail(volumes)
            } else if working_dir is Err {
                fail(working_dir)
            } else if labels is Err {
                fail(labels)
            } else if stop_signal is Err {
                fail(stop_signal)
            } else if args_escaped is Err {
                fail(args_escaped)
            } else {
                Ok(
                    AppConfigModel {
                        user: user->Ok_0,
                        exposed_ports: exposed_ports->Ok_0,
                        env: env->Ok_0,
                        entrypoint: entrypoint->Ok_0,
                        cmd: cmd->Ok_0,
                        volumes: volumes->Ok_0,
                        working_dir: working_dir->Ok_0,
                        labels: labels->Ok_0,
                        stop_signal: stop_signal->Ok_0,
                        args_escaped: args_escaped->Ok_0,
                    },
                )
            }
        },
        _ => Err(violation(Rule::WrongType, field)),
    }
}

/// [`app_config_of`] at `field`, as a function of the value.
pub open spec fn app_config_decoder(field: Seq<char>) -> spec_fn(Json) -> Result<AppConfigModel, Violation> {
    |j: Json| app_config_of(j, field)
}

/// The fields that the defaults of a container are written with: the
/// exposed ports and the environment unless they are empty, the working
/// directory where there is one, all others always, an absent value as `null`.
pub open spec fn app_config_fields(c: AppConfigModel) -> Seq<(Seq<char>, Option<Json>)> {
    seq![
        ("User"@, Some(nullable_text(c.user))),
        ("ExposedPorts"@, filled_value_map(c.exposed_ports)),
        ("Env"@, filled_text_list(c.env)),
        ("Entrypoint"@, Some(nullable_text_list(c.entrypoint))),
        ("Cmd"@, Some(nullable_text_list(c.cmd))),
        ("Volumes"@, Some(nullable_value_map(c.volumes))),
        ("WorkingDir"@, some_text(c.working_dir)),
        ("Labels"@, Some(nullable_text_map(c.labels))),
        ("StopSignal"@, Some(nullable_text(c.stop_signal))),
        ("ArgsEscaped"@, Some(Json::Bool(c.args_escaped))),
    ]
}

/// The JSON form of the defaults of a container.
pub open spec fn app_config_json(c: AppConfigModel) -> Json {
    object_json(app_config_fields(c))
}

/// The defaults of a container, where there are some.
pub open spec fn some_app_config(o: Option<AppConfigModel>) -> Option<Json> {
    match o {
        Some(c) => Some(app_config_json(c)),
        None => None,
    }
}

/// The fields of the defaults of a container have distinct names.
pub proof fn lemma_app_config_keys(x: AppConfigModel)
    ensures
        distinct_keys(app_config_fields(x)),
{
    reveal_strlit("User");
    reveal_strlit("ExposedPorts");
    reveal_strlit("Env");
    reveal_strlit("Entrypoint");
    reveal_strlit("Cmd");
    reveal_strlit("Volumes");
    reveal_strlit("WorkingDir");
    reveal_strlit("Labels");
    reveal_strlit("StopSignal");
    reveal_strlit("ArgsEscaped");
    assert(spelled("User"@, 4, 'U', 's'));
    assert(spelled("ExposedPorts"@, 12, 'E', 'x'));
    assert(spelled("Env"@, 3, 'E', 'n'));
    assert(spelled("Entrypoint"@, 10, 'E', 'n'));
    assert(spelled("Cmd"@, 3, 'C', 'm'));
    assert(spelled("Volumes"@, 7, 'V', 'o'));
    assert(spelled("WorkingDir"@, 10, 'W', 'o'));
    assert(spelled("Labels"@, 6, 'L', 'a'));
    assert(spelled("StopSignal"@, 10, 'S', 't'));
    assert(spelled("ArgsEscaped"@, 11, 'A', 'r'));
}

impl AppConfig {
    /// Writes the defaults of a container as a JSON value.
    pub fn to_json(&self) -> (r: serde_json::Value)
        ensures
            json_of(r) == app_config_json(self.deep_view()),
    {
        let fields = Fields::new().put("User", nullable_text_value(&self.user)).put_some(
            "ExposedPorts",
            filled_value_map_value(&self.exposed_ports),
        ).put_some("Env", filled_text_list_value(&self.env)).put(
            "Entrypoint",
            nullable_text_list_value(&self.entrypoint),
        ).put("Cmd", nullable_text_list_value(&self.cmd)).put(
            "Volumes",
            nullable_value_map_value(&self.volumes),
        ).put_some("WorkingDir", some_text_value(&self.working_dir)).put(
            "Labels",
            nullable_text_map_value(&self.labels),
        ).put("StopSignal", nullable_text_value(&self.stop_signal)).put(
            "ArgsEscaped",
            bool_value(self.args_escaped),
        );
        proof {
            lemma_app_config_keys(self.deep_view());
            assert(fields.table() =~= app_config_fields(self.deep_view()));
        }
        fields.finish()
    }

    /// Reads the defaults of a container from the JSON value at `field`.
    pub fn from_json(v: &serde_json::Value, field: &str) -> (r: Result<AppConfig, ValidationError>)
        ensures
            deep(r) == app_config_of(json_of(*v), field@),
    {
        let items = match value_entries(v) {
            Some(items) => items,
            None => {
                return Err(invalid(Rule::WrongType, field));
            },
        };
        let user = match optional_text(&items, "User") {
            Ok(x) => x,
            Err(e) => {
                return Err(e);
            },
        };
        let exposed_ports = match defaulted_value_map(&items, "ExposedPorts") {
            Ok(x) => x,
            Err(e) => {
                return Err(e);
            },
        };
        let env = match defaulted_text_list(&items, "Env") {
            Ok(x) => x,
            Err(e) => {
                return Err(e);
            },
        };
        let entrypoint = match optional_text_list(&items, "Entrypoint") {
            Ok(x) => x,
            Err(e) => {
                return Err(e);
            },
        };
        let cmd = match optional_text_list(&items, "Cmd") {
            Ok(x) => x,
            Err(e) => {
                return Err(e);
            },
        };
        let volumes = match optional_value_map(&items, "Volumes") {
            Ok(x) => x,
            Err(e) => {
                return Err(e);
            },
        };
        let working_dir = match optional_text(&items, "WorkingDir") {
            Ok(x) => x,
            Err(e) => {
                return Err(e);
            },
        };
        let labels = match optional_text_map(&items, "Labels") {
            Ok(x) => x,
            Err(e) => {
                return Err(e);
            },
        };
        let stop_signal = match optional_text(&items, "StopSignal") {
            Ok(x) => x,
            Err(e) => {
                return Err(e);
            },
        };
        let args_escaped = match flag(&items, "ArgsEscaped") {
            Ok(x) => x,
            Err(e) => {
                return Err(e);
            },
        };
        Ok(
            AppConfig {
                user,
                exposed_ports,
                env,
                entrypoint,
                cmd,
                volumes,
                working_dir,
                labels,
                stop_signal,
                args_escaped,
            },
        )
    }
}

/// The image configuration.
#[derive(Debug)]
pub struct Config {
    pub created: Option<Timestamp>,
    pub author: Option<String>,
    pub architecture: String,
    pub os: String,
    /// `os.version`.
    pub os_version: Option<String>,
    /// `os.features`.
    pub os_features: Vec<String>,
    pub variant: Option<String>,
    /// The defaults with which a container of the image is run.
    pub config: Option<AppConfig>,
    pub rootfs: RootFS,
    pub history: Vec<HistoryEntry>,
}

/// What an image configuration holds.
pub struct ConfigModel {
    pub created: Option<(i64, u32)>,
    pub author: Option<Seq<char>>,
    pub architecture: Seq<char>,
    pub os: Seq<char>,
    pub os_version: Option<Seq<char>>,
    pub os_features: Seq<Seq<char>>,
    pub variant: Option<Seq<char>>,
    pub config: Option<AppConfigModel>,
    pub rootfs: RootFSModel,
    pub history: Seq<HistoryModel>,
}

impl DeepView for Config {
    type V = ConfigModel;

    open spec fn deep_view(&self) -> ConfigModel {
        ConfigModel {
            created: opt_instant(self.created),
            author: opt_text(self.author),
            architecture: self.architecture@,
            os: self.os@,
            os_version: opt_text(self.os_version),
            os_features: self.os_features.deep_view(),
            variant: opt_text(self.variant),
            config: self.config.deep_view(),
            rootfs: self.rootfs.deep_view(),
            history: self.history.deep_view(),
        }
    }
}

/// What a JSON value stands for as an image configuration. The value is an
/// object with no fields but the configuration's own; the first field in the
/// order below that is missing or ill-formed decides the failure. A value
/// that is no object fails at the field of the empty name.
pub open spec fn config_of(j: Json) -> Result<ConfigModel, Violation> {
    match j {
        Json::Object(es) => {
            let known = strict(es, Shape::Config);
            let created = optional(lookup(es, "created"@), timestamp_decoder("created"@));
            let author = optional(lookup(es, "author"@), text_decoder("author"@));
            let architecture = required(lookup(es, "architecture"@), "architecture"@, text_decoder("architecture"@));
            let os = required(lookup(es, "os"@), "os"@, text_decoder("os"@));
            let os_version = optional(lookup(es, "os.version"@), text_decoder("os.version"@));
            let os_features = defaulted(
                lookup(es, "os.features"@),
                Seq::<Seq<char>>::empty(),
                text_list_decoder("os.features"@),
            );
            let variant = optional(lookup(es, "variant"@), text_decoder("variant"@));
            let config = optional(lookup(es, "config"@), app_config_decoder("config"@));
            let rootfs = required(lookup(es, "rootfs"@), "rootfs"@, rootfs_decoder("rootfs"@));
            let history = defaulted(
                lookup(es, "history"@),
                Seq::<HistoryModel>::empty(),
                list_decoder("history"@, history_decoder("history"@)),
            );
            if known is Err {
                fail(known)
            } else if created is Err {
                fail(created)
            } else if author is Err {
                fail(author)
            } else if architecture is Err {
                fail(architecture)
            } else if os is Err {
                fail(os)
            } else if os_version is Err {
                fail(os_version)
            } else if os_features is Err {
                fail(os_features)
            } else if variant is Err {
                fail(variant)
            } else if config is Err {
                fail(config)
            } else if rootfs is Err {
                fail(rootfs)
            } else if history is Err {
                fail(history)
            } else {
                Ok(
                    ConfigModel {
                        created: created->Ok_0,
                        author: author->Ok_0,
                        architecture: architecture->Ok_0,
                        os: os->Ok_0,
                        os_version: os_version->Ok_0,
                        os_features: os_features->Ok_0,
                        variant: variant->Ok_0,
                        config: config->Ok_0,
                        rootfs: rootfs->Ok_0,
                        history: history->Ok_0,
                    },
                )
            }
        },
        _ => Err(violation(Rule::WrongType, ""@)),
    }
}

/// The fields that an image configuration is written with: the
/// architecture, the operating system and the root file system always, the
/// features and the history unless they are empty, each other where it has a
/// value.
pub open spec fn config_fields(c: ConfigModel) -> Seq<(Seq<char>, Option<Json>)> {
    seq![
        ("created"@, some_timestamp(c.created)),
        ("author"@, some_text(c.author)),
        ("architecture"@, Some(Json::Text(c.architecture))),
        ("os"@, Some(Json::Text(c.os))),
        ("os.version"@, some_text(c.os_version)),
        ("os.features"@, filled_text_list(c.os_features)),
        ("variant"@, some_text(c.variant)),
        ("config"@, some_app_config(c.config)),
        ("rootfs"@, Some(rootfs_json(c.rootfs))),
        ("history"@, filled_history(c.history)),
    ]
}

/// The JSON form of an image configuration.
pub open spec fn config_json(c: ConfigModel) -> Json {
    object_json(config_fields(c))
}

/// The fields of an image configuration have distinct names.
pub proof fn lemma_config_keys(x: ConfigModel)
    ensures
        distinct_keys(config_fields(x)),
{
    reveal_strlit("created");
    reveal_strlit("author");
    reveal_strlit("architecture");
    reveal_strlit("os");
    reveal_strlit("os.version");
    reveal_strlit("os.features");
    reveal_strlit("variant");
    reveal_strlit("config");
    reveal_strlit("rootfs");
    reveal_strlit("history");
    assert(spelled("created"@, 7, 'c', 'r'));
    assert(spelled("author"@, 6, 'a', 'u'));
    assert(spelled("architecture"@, 12, 'a', 'r'));
    assert(spelled("os"@, 2, 'o', 's'));
    assert(spelled("os.version"@, 10, 'o', 's'));
    assert(spelled("os.features"@, 11, 'o', 's'));
    assert(spelled("variant"@, 7, 'v', 'a'));
    assert(spelled("config"@, 6, 'c', 'o'));
    assert(spelled("rootfs"@, 6, 'r', 'o'));
    assert(spelled("history"@, 7, 'h', 'i'));
}

impl Config {
    /// Writes the configuration as a JSON value.
    pub fn to_json(&self) -> (r: serde_json::Value)
        ensures
            json_of(r) == config_json(self.deep_view()),
    {
        let config = match &self.config {
            Some(c) => Some(c.to_json()),
            None => None,
        };
        let fields = Fields::new().put_some("created", some_timestamp_value(&self.created)).put_some(
            "author",
            some_text_value(&self.author),
        ).put("architecture", text_value(self.architecture.clone())).put(
            "os",
            text_value(self.os.clone()),
        ).put_some("os.version", some_text_value(&self.os_version)).put_some(
            "os.features",
            filled_text_list_value(&self.os_features),
        ).put_some("variant", some_text_value(&self.variant)).put_some("config", config).put(
            "rootfs",
            self.rootfs.to_json(),
        ).put_some("history", HistoryEntry::list_to_json(&self.history));
        proof {
            lemma_config_keys(self.deep_view());
            assert(fields.table() =~= config_fields(self.deep_view()));
        }
        fields.finish()
    }

    /// Reads an image configuration from a JSON value.
    pub fn from_json(v: &serde_json::Value) -> (r: Result<Config, ValidationError>)
        ensures
            deep(r) == config_of(json_of(*v)),
    {
        let items = match value_entries(v) {
            Some(items) => items,
            None => {
                return Err(invalid(Rule::WrongType, ""));
            },
        };
        match reject_unknown(&items, Shape::Config) {
            Ok(_) => {},
            Err(e) => {
                return Err(e);
            },
        }
        let created = match optional_timestamp(&items, "created") {
            Ok(x) => x,
            Err(e) => {
                return Err(e);
            },
        };
        let author = match optional_text(&items, "author") {
            Ok(x) => x,
            Err(e) => {
                return Err(e);
            },
        };
        let architecture = match required_text(&items, "architecture") {
            Ok(x) => x,
            Err(e) => {
                return Err(e);
            },
        };
        let os = match required_text(&items, "os") {
            Ok(x) => x,
            Err(e) => {
                return Err(e);
            },
        };
        let os_version = match optional_text(&items, "os.version") {
            Ok(x) => x,
            Err(e) => {
                return Err(e);
            },
        };
        let os_features = match defaulted_text_list(&items, "os.features") {
            Ok(x) => x,
            Err(e) => {
                return Err(e);
            },
        };
        let variant = match optional_text(&items, "variant") {
            Ok(x) => x,
            Err(e) => {
                return Err(e);
            },
        };
        let config = match find_present(&items, "config") {
            Some(x) => match AppConfig::from_json(x, "config") {
                Ok(c) => Some(c),
                Err(e) => {
                    return Err(e);
                },
            },
            None => None,
        };
        let rootfs = match find(&items, "rootfs") {
            Some(x) => match RootFS::from_json(x, "rootfs") {
                Ok(fs) => fs,
                Err(e) => {
                    return Err(e);
                },
            },
            None => {
                return Err(invalid(Rule::MissingField, "rootfs"));
            },
        };
        let history = match find(&items, "history") {
            Some(x) => match HistoryEntry::list_from_json(x, "history") {
                Ok(l) => l,
                Err(e) => {
                    return Err(e);
                },
            },
            None => {
                let none: Vec<HistoryEntry> = Vec::new();
                proof {
                    assert(none.deep_view() =~= Seq::<HistoryModel>::empty());
                }
                none
            },
        };
        Ok(
            Config {
                created,
                author,
                architecture,
                os,
                os_version,
                os_features,
                variant,
                config,
                rootfs,
                history,
            },
        )
    }

    /// Reads an image configuration from JSON text. The text is parsed by
    /// `serde_json`; what it holds is then read as [`config_of`] says.
    pub fn from_slice(text: &[u8]) -> (r: Result<Config, DocumentError>)
        ensures
            match r {
                Ok(c) => json_document(text@) matches Some(j) && config_of(j) == Ok::<ConfigModel, Violation>(c.deep_view()),
                Err(DocumentError::Invalid(e)) => json_document(text@) matches Some(j) && config_of(j) == Err::<ConfigModel, Violation>(e@),
                Err(DocumentError::Syntax(_)) => json_document(text@) is None,
            },
    {
        match parse_value(text) {
            Ok(v) => match Config::from_json(&v) {
                Ok(c) => Ok(c),
                Err(e) => Err(DocumentError::Invalid(e)),
            },
            Err(e) => Err(DocumentError::Syntax(e)),
        }
    }
}

} // verus!
