use liboci::{
    AppConfig, Config, ContentDescriptor, ContentDiscoveryResponse, DocumentError, HistoryEntry,
    ImageIndex, ImageLayout, ImageLayoutVersion, ImageManifest, Manifest, Pattern, Platform,
    Resolution, RootFS, RootFSKind, Rule, ValidationError,
};
use serde_json::Value;

fn json(text: &str) -> Value {
    serde_json::from_str(text).unwrap()
}

fn broken(rule: Rule, field: &str) -> ValidationError {
    ValidationError { rule, field: field.to_string() }
}

const DESCRIPTOR: &str = r#"{
    "mediaType": "application/vnd.oci.image.layer.v1.tar+gzip",
    "size": 2811478,
    "digest": "sha256:5f70bf18a086007016e948b04aed3b82103a36bea41755b6cddfaf10ace3c6ef"
}"#;

const INDEX: &str = r#"{
    "schemaVersion": 2,
    "mediaType": "application/vnd.oci.image.index.v1+json",
    "manifests": [
        {
            "mediaType": "application/vnd.oci.image.manifest.v1+json",
            "size": 7143,
            "digest": "sha256:e692418e4cbaf90ca69d05a66403747baa33ee08806650b51fab815ad7fc331f",
            "platform": { "architecture": "ppc64le", "os": "linux" }
        },
        {
            "mediaType": "application/vnd.oci.image.manifest.v1+json",
            "size": 7682,
            "digest": "sha256:5b0bcabd1ed22e9fb1310cf6c2dec7cdef19f0ad69efa1f392e94a4333501270",
            "platform": { "architecture": "amd64", "os": "linux", "os.features": ["sse4"] }
        }
    ],
    "annotations": { "com.example.key1": "value1", "com.example.key2": "value2" }
}"#;

#[test]
fn descriptor_with_the_required_fields() {
    let d = ContentDescriptor::from_json(&json(DESCRIPTOR), "layer").unwrap();
    assert_eq!(d.media_type, "application/vnd.oci.image.layer.v1.tar+gzip");
    assert_eq!(d.size, 2811478);
    assert_eq!(d.digest, "sha256:5f70bf18a086007016e948b04aed3b82103a36bea41755b6cddfaf10ace3c6ef");
    assert!(d.urls.is_none());
    assert!(d.data.is_none());
    assert!(d.artifact_type.is_none());
    assert!(d.annotations.is_empty());
}

#[test]
fn descriptor_with_every_field() {
    let d = ContentDescriptor::from_json(
        &json(
            r#"{"mediaType": "a/b", "size": 5, "digest": "sha256:abc",
                "urls": ["https://example.com/blob", "http://mirror.example.com:8080/x y"],
                "data": "aGVsbG8=", "artifactType": "application/x", "annotations": {"k": "v"}}"#,
        ),
        "",
    )
    .unwrap();
    let urls = d.urls.unwrap();
    assert_eq!(urls.len(), 2);
    assert_eq!(urls[0].as_str(), "https://example.com/blob");
    assert_eq!(urls[1].as_str(), "http://mirror.example.com:8080/x%20y");
    assert_eq!(d.data.unwrap().into_bytes(), b"hello".to_vec());
    assert_eq!(d.artifact_type.unwrap(), "application/x");
    assert_eq!(d.annotations["k"], "v");
}

#[test]
fn descriptor_rejects_unknown_fields() {
    let e = ContentDescriptor::from_json(
        &json(r#"{"mediaType": "a/b", "size": 5, "digest": "sha256:abc", "extra": 1, "more": 2}"#),
        "",
    )
    .unwrap_err();
    assert_eq!(e, broken(Rule::UnknownField, "extra"));
}

#[test]
fn descriptor_missing_fields() {
    let e = ContentDescriptor::from_json(&json(r#"{"size": 5, "digest": "sha256:abc"}"#), "").unwrap_err();
    assert_eq!(e, broken(Rule::MissingField, "mediaType"));
    let e = ContentDescriptor::from_json(&json(r#"{"mediaType": "a/b", "digest": "sha256:abc"}"#), "").unwrap_err();
    assert_eq!(e, broken(Rule::MissingField, "size"));
    let e = ContentDescriptor::from_json(&json(r#"{"mediaType": "a/b", "size": 1}"#), "").unwrap_err();
    assert_eq!(e, broken(Rule::MissingField, "digest"));
}

#[test]
fn descriptor_that_is_no_object() {
    let e = ContentDescriptor::from_json(&json("[1, 2]"), "config").unwrap_err();
    assert_eq!(e, broken(Rule::WrongType, "config"));
}

#[test]
fn descriptor_patterns() {
    let e = ContentDescriptor::from_json(
        &json(r#"{"mediaType": "nomediatype", "size": 5, "digest": "sha256:abc"}"#),
        "",
    )
    .unwrap_err();
    assert_eq!(e, broken(Rule::PatternMismatch(Pattern::MediaType), "mediaType"));
    let e = ContentDescriptor::from_json(&json(r#"{"mediaType": "a/b", "size": 5, "digest": "SHA256:abc"}"#), "")
        .unwrap_err();
    assert_eq!(e, broken(Rule::PatternMismatch(Pattern::Digest), "digest"));
    let e = ContentDescriptor::from_json(
        &json(r#"{"mediaType": "a/b", "size": 5, "digest": "sha256:abc", "artifactType": "x"}"#),
        "",
    )
    .unwrap_err();
    assert_eq!(e, broken(Rule::PatternMismatch(Pattern::MediaType), "artifactType"));
    assert!(Pattern::Digest.regex().starts_with("^[a-z0-9]+"));
    assert!(Pattern::MediaType.regex().ends_with("{0,126}$"));
}

#[test]
fn descriptor_size_takes_the_whole_signed_range() {
    let d = ContentDescriptor::from_json(&json(r#"{"mediaType": "a/b", "size": -1, "digest": "sha256:abc"}"#), "")
        .unwrap();
    assert_eq!(d.size, -1);
    let d = ContentDescriptor::from_json(
        &json(r#"{"mediaType": "a/b", "size": -9223372036854775808, "digest": "sha256:abc"}"#),
        "",
    )
    .unwrap();
    assert_eq!(d.size, i64::MIN);
    let d = ContentDescriptor::from_json(
        &json(r#"{"mediaType": "a/b", "size": 9223372036854775807, "digest": "sha256:abc"}"#),
        "",
    )
    .unwrap();
    assert_eq!(d.size, i64::MAX);
    let e = ContentDescriptor::from_json(
        &json(r#"{"mediaType": "a/b", "size": 9223372036854775808, "digest": "sha256:abc"}"#),
        "",
    )
    .unwrap_err();
    assert_eq!(e, broken(Rule::WrongType, "size"));
    let e = ContentDescriptor::from_json(&json(r#"{"mediaType": "a/b", "size": 1.5, "digest": "sha256:abc"}"#), "")
        .unwrap_err();
    assert_eq!(e, broken(Rule::WrongType, "size"));
    let e = ContentDescriptor::from_json(&json(r#"{"mediaType": "a/b", "size": "1", "digest": "sha256:abc"}"#), "")
        .unwrap_err();
    assert_eq!(e, broken(Rule::WrongType, "size"));
}

#[test]
fn descriptor_outside_codecs_reject() {
    let e = ContentDescriptor::from_json(
        &json(r#"{"mediaType": "a/b", "size": 5, "digest": "sha256:abc", "data": "not base64!"}"#),
        "",
    )
    .unwrap_err();
    assert_eq!(e, broken(Rule::InvalidBase64, "data"));
    let e = ContentDescriptor::from_json(
        &json(r#"{"mediaType": "a/b", "size": 5, "digest": "sha256:abc", "urls": ["relative/path"]}"#),
        "",
    )
    .unwrap_err();
    assert_eq!(e, broken(Rule::InvalidUrl, "urls"));
    let e = ContentDescriptor::from_json(
        &json(r#"{"mediaType": "a/b", "size": 5, "digest": "sha256:abc", "urls": "https://example.com"}"#),
        "",
    )
    .unwrap_err();
    assert_eq!(e, broken(Rule::WrongType, "urls"));
}

#[test]
fn descriptor_null_is_absent_for_optional_fields() {
    let d = ContentDescriptor::from_json(
        &json(r#"{"mediaType": "a/b", "size": 5, "digest": "sha256:abc", "urls": null, "data": null, "artifactType": null}"#),
        "",
    )
    .unwrap();
    assert!(d.urls.is_none() && d.data.is_none() && d.artifact_type.is_none());
    let e = ContentDescriptor::from_json(
        &json(r#"{"mediaType": "a/b", "size": 5, "digest": "sha256:abc", "annotations": null}"#),
        "",
    )
    .unwrap_err();
    assert_eq!(e, broken(Rule::WrongType, "annotations"));
}

#[test]
fn annotation_with_empty_key_is_rejected() {
    let e = ContentDescriptor::from_json(
        &json(r#"{"mediaType": "a/b", "size": 5, "digest": "sha256:abc", "annotations": {"": "v"}}"#),
        "",
    )
    .unwrap_err();
    assert_eq!(e, broken(Rule::InvalidAnnotationKey, "annotations"));
    let d = ContentDescriptor::from_json(
        &json(r#"{"mediaType": "a/b", "size": 5, "digest": "sha256:abc", "annotations": {"x": "v"}}"#),
        "",
    )
    .unwrap();
    assert_eq!(d.annotations.len(), 1);
    assert_eq!(d.annotations["x"], "v");
}

#[test]
fn index_annotation_with_empty_key_is_rejected() {
    let with_key = |key: &str| {
        format!(r#"{{"schemaVersion": 2, "manifests": [], "annotations": {{"a": "1", "{}": "2"}}}}"#, key)
    };
    match ImageIndex::from_slice(with_key("").as_bytes()) {
        Err(DocumentError::Invalid(e)) => assert_eq!(e, broken(Rule::InvalidAnnotationKey, "annotations")),
        other => panic!("unexpected: {:?}", other),
    }
    let index = ImageIndex::from_slice(with_key("x").as_bytes()).unwrap();
    assert_eq!(index.annotations.len(), 2);
    assert_eq!(index.annotations.get_index(1), Some((&"x".to_string(), &"2".to_string())));
}

#[test]
fn annotation_values_are_strings() {
    let e = ContentDescriptor::from_json(
        &json(r#"{"mediaType": "a/b", "size": 5, "digest": "sha256:abc", "annotations": {"x": 1}}"#),
        "",
    )
    .unwrap_err();
    assert_eq!(e, broken(Rule::WrongType, "annotations"));
}

#[test]
fn annotations_keep_the_order_of_the_document() {
    let d = ContentDescriptor::from_json(
        &json(r#"{"mediaType": "a/b", "size": 5, "digest": "sha256:abc", "annotations": {"z": "1", "a": "2", "m": "3"}}"#),
        "",
    )
    .unwrap();
    let keys: Vec<&str> = d.annotations.keys().map(|k| k.as_str()).collect();
    assert_eq!(keys, vec!["z", "a", "m"]);
}

#[test]
fn resolve_prefers_inline_data() {
    let d = ContentDescriptor::from_json(
        &json(r#"{"mediaType": "a/b", "size": 5, "digest": "sha256:abc", "data": "aGVsbG8="}"#),
        "",
    )
    .unwrap();
    match d.resolve().unwrap() {
        Resolution::Inline(bytes) => assert_eq!(bytes, b"hello".to_vec()),
        other => panic!("unexpected: {:?}", other),
    }
}

#[test]
fn resolve_without_data_names_the_file() {
    let d = ContentDescriptor::from_json(&json(DESCRIPTOR), "").unwrap();
    match d.resolve().unwrap() {
        Resolution::File(digest) => {
            assert_eq!(
                digest.blob_path(),
                "blobs/sha256/5f70bf18a086007016e948b04aed3b82103a36bea41755b6cddfaf10ace3c6ef"
            )
        }
        other => panic!("unexpected: {:?}", other),
    }
}

#[test]
fn resolve_of_a_malformed_digest() {
    let mut d = ContentDescriptor::from_json(&json(DESCRIPTOR), "").unwrap();
    d.digest = "nodigest".to_string();
    assert!(matches!(d.resolve(), Err(liboci::OCIDirError::MalformedDigest(t)) if t == "nodigest"));
    d.data = Some(liboci::Base64::new(vec![1, 2, 3]));
    assert!(matches!(d.resolve(), Ok(Resolution::Inline(b)) if b == vec![1, 2, 3]));
}

#[test]
fn index_is_read() {
    let index = ImageIndex::from_slice(INDEX.as_bytes()).unwrap();
    assert_eq!(index.schema_version, 2);
    assert_eq!(index.media_type.as_deref(), Some("application/vnd.oci.image.index.v1+json"));
    assert!(index.artifact_type.is_none());
    assert!(index.subject.is_none());
    assert_eq!(index.manifests.len(), 2);
    assert_eq!(index.manifests[0].size, 7143);
    assert_eq!(index.manifests[0].platform.as_ref().unwrap().architecture, "ppc64le");
    assert_eq!(index.manifests[1].platform.as_ref().unwrap().os_features, vec!["sse4".to_string()]);
    assert_eq!(index.annotations["com.example.key2"], "value2");
}

#[test]
fn schema_version_other_than_two_is_rejected() {
    for version in ["1", "3", "0", "255", "256", "-2", "2.0", "\"2\"", "null", "18446744073709551615"] {
        let text = format!(r#"{{"schemaVersion": {}, "manifests": []}}"#, version);
        match ImageIndex::from_slice(text.as_bytes()) {
            Err(DocumentError::Invalid(e)) => assert_eq!(e, broken(Rule::InvalidSchemaVersion, "schemaVersion")),
            other => panic!("unexpected for {}: {:?}", version, other),
        }
        let text = format!(
            r#"{{"schemaVersion": {}, "config": {}, "layers": [{}]}}"#,
            version, DESCRIPTOR, DESCRIPTOR
        );
        match ImageManifest::from_slice(text.as_bytes()) {
            Err(DocumentError::Invalid(e)) => assert_eq!(e, broken(Rule::InvalidSchemaVersion, "schemaVersion")),
            other => panic!("unexpected for {}: {:?}", version, other),
        }
    }
}

#[test]
fn schema_version_is_held_to_first() {
    let text = r#"{"bogus": true, "schemaVersion": 3}"#;
    match ImageIndex::from_slice(text.as_bytes()) {
        Err(DocumentError::Invalid(e)) => assert_eq!(e, broken(Rule::InvalidSchemaVersion, "schemaVersion")),
        other => panic!("unexpected: {:?}", other),
    }
    match ImageIndex::from_slice(br#"{"manifests": []}"#) {
        Err(DocumentError::Invalid(e)) => assert_eq!(e, broken(Rule::MissingField, "schemaVersion")),
        other => panic!("unexpected: {:?}", other),
    }
}

#[test]
fn index_rejects_unknown_fields() {
    match ImageIndex::from_slice(br#"{"schemaVersion": 2, "manifests": [], "unknown": 1}"#) {
        Err(DocumentError::Invalid(e)) => assert_eq!(e, broken(Rule::UnknownField, "unknown")),
        other => panic!("unexpected: {:?}", other),
    }
}

#[test]
fn index_needs_manifests() {
    match ImageIndex::from_slice(br#"{"schemaVersion": 2}"#) {
        Err(DocumentError::Invalid(e)) => assert_eq!(e, broken(Rule::MissingField, "manifests")),
        other => panic!("unexpected: {:?}", other),
    }
    match ImageIndex::from_slice(br#"{"schemaVersion": 2, "manifests": {}}"#) {
        Err(DocumentError::Invalid(e)) => assert_eq!(e, broken(Rule::WrongType, "manifests")),
        other => panic!("unexpected: {:?}", other),
    }
    match ImageIndex::from_slice(b"[]") {
        Err(DocumentError::Invalid(e)) => assert_eq!(e, broken(Rule::WrongType, "")),
        other => panic!("unexpected: {:?}", other),
    }
}

#[test]
fn text_that_is_no_json_is_a_syntax_error() {
    assert!(matches!(ImageIndex::from_slice(b"{\"schemaVersion\": 2,"), Err(DocumentError::Syntax(_))));
    assert!(matches!(ImageManifest::from_slice(b""), Err(DocumentError::Syntax(_))));
    assert!(matches!(Config::from_slice(b"{} trailing"), Err(DocumentError::Syntax(_))));
}

#[test]
fn nested_types_pass_over_unknown_fields() {
    let m = Manifest::from_json(
        &json(
            r#"{"mediaType": "a/b", "size": 1, "digest": "sha256:abc", "extra": true,
                "platform": {"architecture": "arm64", "os": "linux", "variant": "v8", "os.version": "1", "features": []}}"#,
        ),
        "manifests",
    )
    .unwrap();
    let platform = m.platform.unwrap();
    assert_eq!(platform.variant.as_deref(), Some("v8"));
    assert_eq!(platform.os_version.as_deref(), Some("1"));
    assert!(platform.os_features.is_empty());
    let h = HistoryEntry::from_json(&json(r#"{"created_by": "/bin/sh", "extra": 1}"#), "history").unwrap();
    assert_eq!(h.created_by.as_deref(), Some("/bin/sh"));
    assert!(!h.empty_layer);
    let fs = RootFS::from_json(&json(r#"{"type": "layers", "diff_ids": [], "extra": 1}"#), "rootfs").unwrap();
    assert_eq!(fs.kind, RootFSKind::Layers);
    let app = AppConfig::from_json(&json(r#"{"Image": "sha256:abc", "Domainname": ""}"#), "config").unwrap();
    assert!(app.user.is_none() && app.env.is_empty() && !app.args_escaped);
}

#[test]
fn manifest_descriptor_is_held_to_the_patterns() {
    let e = Manifest::from_json(&json(r#"{"mediaType": "a/b", "size": 1, "digest": "sha256"}"#), "manifests")
        .unwrap_err();
    assert_eq!(e, broken(Rule::PatternMismatch(Pattern::Digest), "digest"));
    let e = Manifest::from_json(&json(r#"{"mediaType": "a", "size": 1, "digest": "sha256:abc"}"#), "manifests")
        .unwrap_err();
    assert_eq!(e, broken(Rule::PatternMismatch(Pattern::MediaType), "mediaType"));
    let e = Manifest::from_json(
        &json(r#"{"mediaType": "a/b", "size": 1, "digest": "sha256:abc", "platform": {"os": "linux"}}"#),
        "manifests",
    )
    .unwrap_err();
    assert_eq!(e, broken(Rule::MissingField, "architecture"));
}

#[test]
fn manifest_is_read() {
    let text = format!(
        r#"{{"schemaVersion": 2, "mediaType": "application/vnd.oci.image.manifest.v1+json",
            "config": {}, "layers": [{}, {}], "subject": {}, "annotations": {{"a": "b"}}}}"#,
        DESCRIPTOR, DESCRIPTOR, DESCRIPTOR, DESCRIPTOR
    );
    let m = ImageManifest::from_slice(text.as_bytes()).unwrap();
    assert_eq!(m.schema_version, 2);
    assert_eq!(m.layers.len(), 2);
    assert_eq!(m.config.size, 2811478);
    assert!(m.subject.is_some());
    assert_eq!(m.annotations["a"], "b");
}

#[test]
fn manifest_needs_a_layer() {
    let text = format!(r#"{{"schemaVersion": 2, "config": {}, "layers": []}}"#, DESCRIPTOR);
    match ImageManifest::from_slice(text.as_bytes()) {
        Err(DocumentError::Invalid(e)) => assert_eq!(e, broken(Rule::LayersEmpty, "layers")),
        other => panic!("unexpected: {:?}", other),
    }
    let text = format!(r#"{{"schemaVersion": 2, "config": {}}}"#, DESCRIPTOR);
    match ImageManifest::from_slice(text.as_bytes()) {
        Err(DocumentError::Invalid(e)) => assert_eq!(e, broken(Rule::MissingField, "layers")),
        other => panic!("unexpected: {:?}", other),
    }
}

#[test]
fn manifest_rejects_unknown_fields_also_in_its_descriptors() {
    let text = format!(r#"{{"schemaVersion": 2, "config": {}, "layers": [{}], "x": 0}}"#, DESCRIPTOR, DESCRIPTOR);
    match ImageManifest::from_slice(text.as_bytes()) {
        Err(DocumentError::Invalid(e)) => assert_eq!(e, broken(Rule::UnknownField, "x")),
        other => panic!("unexpected: {:?}", other),
    }
    let text = format!(
        r#"{{"schemaVersion": 2, "config": {}, "layers": [{{"mediaType": "a/b", "size": 1, "digest": "sha256:abc", "y": 0}}]}}"#,
        DESCRIPTOR
    );
    match ImageManifest::from_slice(text.as_bytes()) {
        Err(DocumentError::Invalid(e)) => assert_eq!(e, broken(Rule::UnknownField, "y")),
        other => panic!("unexpected: {:?}", other),
    }
}

#[test]
fn first_failing_element_of_a_list_decides() {
    let text = format!(
        r#"{{"schemaVersion": 2, "config": {},
            "layers": [{}, {{"mediaType": "a/b", "size": 1}}, {{"mediaType": "bad", "size": 1, "digest": "sha256:abc"}}]}}"#,
        DESCRIPTOR, DESCRIPTOR
    );
    match ImageManifest::from_slice(text.as_bytes()) {
        Err(DocumentError::Invalid(e)) => assert_eq!(e, broken(Rule::MissingField, "digest")),
        other => panic!("unexpected: {:?}", other),
    }
}

#[test]
fn config_is_read() {
    let c = Config::from_slice(
        br#"{"created": "2023-07-06T13:22:24.821560577Z", "architecture": "amd64", "os": "linux",
            "config": {"User": "1001", "ExposedPorts": {"5432/tcp": {}}, "Env": ["PATH=/usr/bin", "HOME=/"],
                       "Entrypoint": ["/opt/entrypoint.sh"], "Cmd": ["/opt/run.sh"], "Volumes": null,
                       "WorkingDir": "/", "Labels": {"org.opencontainers.image.title": "postgresql"},
                       "StopSignal": null, "ArgsEscaped": true},
            "rootfs": {"type": "layers", "diff_ids": ["sha256:aa", "sha256:bb"]},
            "history": [{"created": "2023-07-06T13:22:24Z", "created_by": "RUN x", "comment": "c", "author": "a"},
                        {"created_by": "ENV y", "empty_layer": true}]}"#,
    )
    .unwrap();
    assert_eq!(c.created.unwrap().to_rfc3339(), "2023-07-06T13:22:24.821560577Z");
    assert_eq!(c.architecture, "amd64");
    assert_eq!(c.os, "linux");
    assert!(c.os_features.is_empty() && c.os_version.is_none() && c.variant.is_none() && c.author.is_none());
    let app = c.config.unwrap();
    assert_eq!(app.user.as_deref(), Some("1001"));
    assert_eq!(app.exposed_ports.len(), 1);
    assert_eq!(app.exposed_ports["5432/tcp"], json("{}"));
    assert_eq!(app.env, vec!["PATH=/usr/bin".to_string(), "HOME=/".to_string()]);
    assert_eq!(app.entrypoint, Some(vec!["/opt/entrypoint.sh".to_string()]));
    assert_eq!(app.cmd, Some(vec!["/opt/run.sh".to_string()]));
    assert!(app.volumes.is_none());
    assert_eq!(app.working_dir.as_deref(), Some("/"));
    assert_eq!(app.labels.unwrap()["org.opencontainers.image.title"], "postgresql");
    assert!(app.stop_signal.is_none());
    assert!(app.args_escaped);
    assert_eq!(c.rootfs.kind, RootFSKind::Layers);
    assert_eq!(c.rootfs.diff_ids, vec!["sha256:aa".to_string(), "sha256:bb".to_string()]);
    assert_eq!(c.history.len(), 2);
    assert_eq!(c.history[0].created.unwrap().seconds(), 1688649744);
    assert!(!c.history[0].empty_layer);
    assert!(c.history[1].empty_layer);
    assert!(c.history[1].created.is_none());
}

#[test]
fn config_rejects_what_breaks_its_rules() {
    let check = |text: &str, rule: Rule, field: &str| match Config::from_slice(text.as_bytes()) {
        Err(DocumentError::Invalid(e)) => assert_eq!(e, broken(rule, field)),
        other => panic!("unexpected for {}: {:?}", text, other),
    };
    let rootfs = r#""rootfs": {"type": "layers", "diff_ids": []}"#;
    check(&format!(r#"{{"architecture": "amd64", "os": "linux", {}, "docker_version": "1"}}"#, rootfs), Rule::UnknownField, "docker_version");
    check(&format!(r#"{{"os": "linux", {}}}"#, rootfs), Rule::MissingField, "architecture");
    check(&format!(r#"{{"architecture": "amd64", {}}}"#, rootfs), Rule::MissingField, "os");
    check(r#"{"architecture": "amd64", "os": "linux"}"#, Rule::MissingField, "rootfs");
    check(r#"{"architecture": "amd64", "os": "linux", "rootfs": {"type": "tree", "diff_ids": []}}"#, Rule::UnknownVariant, "type");
    check(r#"{"architecture": "amd64", "os": "linux", "rootfs": {"type": "layers"}}"#, Rule::MissingField, "diff_ids");
    check(r#"{"architecture": "amd64", "os": "linux", "rootfs": {"type": "layers", "diff_ids": [1]}}"#, Rule::WrongType, "diff_ids");
    check(&format!(r#"{{"created": "yesterday", "architecture": "amd64", "os": "linux", {}}}"#, rootfs), Rule::InvalidTimestamp, "created");
    check(&format!(r#"{{"architecture": "amd64", "os": "linux", {}, "config": {{"Labels": {{"": "x"}}}}}}"#, rootfs), Rule::InvalidAnnotationKey, "Labels");
    check(&format!(r#"{{"architecture": "amd64", "os": "linux", {}, "config": {{"ExposedPorts": {{"": {{}}}}}}}}"#, rootfs), Rule::InvalidAnnotationKey, "ExposedPorts");
    check(&format!(r#"{{"architecture": "amd64", "os": "linux", {}, "config": {{"Volumes": {{"": {{}}}}}}}}"#, rootfs), Rule::InvalidAnnotationKey, "Volumes");
    check(&format!(r#"{{"architecture": "amd64", "os": "linux", {}, "config": {{"ArgsEscaped": "yes"}}}}"#, rootfs), Rule::WrongType, "ArgsEscaped");
    check(&format!(r#"{{"architecture": "amd64", "os": "linux", {}, "history": null}}"#, rootfs), Rule::WrongType, "history");
    check(&format!(r#"{{"architecture": "amd64", "os": "linux", {}, "history": [3]}}"#, rootfs), Rule::WrongType, "history");
}

#[test]
fn layout_marker() {
    let layout = ImageLayout::from_json(&json(r#"{"imageLayoutVersion": "1.0.0"}"#)).unwrap();
    assert_eq!(layout.version(), ImageLayoutVersion::OneZeroZero);
    assert_eq!(layout, ImageLayout::new(ImageLayoutVersion::OneZeroZero));
    assert_eq!(layout.to_json(), json(r#"{"imageLayoutVersion": "1.0.0"}"#));
    let e = ImageLayout::from_json(&json(r#"{"imageLayoutVersion": "2.0.0"}"#)).unwrap_err();
    assert_eq!(e, broken(Rule::UnknownVariant, "imageLayoutVersion"));
    let e = ImageLayout::from_json(&json(r#"{}"#)).unwrap_err();
    assert_eq!(e, broken(Rule::MissingField, "imageLayoutVersion"));
}

#[test]
fn discovery_response() {
    let r = ContentDiscoveryResponse::from_json(&json(r#"{"name": "library/ubuntu", "tags": ["22.04", "latest"]}"#))
        .unwrap();
    assert_eq!(r.name, "library/ubuntu");
    assert_eq!(r.tags, vec!["22.04".to_string(), "latest".to_string()]);
    assert_eq!(r.to_json(), json(r#"{"name": "library/ubuntu", "tags": ["22.04", "latest"]}"#));
    let e = ContentDiscoveryResponse::from_json(&json(r#"{"name": "library/ubuntu"}"#)).unwrap_err();
    assert_eq!(e, broken(Rule::MissingField, "tags"));
}

#[test]
fn descriptor_is_written_with_every_field() {
    let d = ContentDescriptor::from_json(&json(DESCRIPTOR), "").unwrap();
    assert_eq!(
        d.to_json(),
        json(
            r#"{"mediaType": "application/vnd.oci.image.layer.v1.tar+gzip", "size": 2811478,
                "digest": "sha256:5f70bf18a086007016e948b04aed3b82103a36bea41755b6cddfaf10ace3c6ef",
                "urls": null, "data": null, "artifactType": null, "annotations": {}}"#
        )
    );
    let keys: Vec<String> = d.to_json().as_object().unwrap().keys().cloned().collect();
    assert_eq!(keys, vec!["mediaType", "size", "digest", "urls", "data", "artifactType", "annotations"]);
}

#[test]
fn platform_is_written_without_what_it_lacks() {
    let p = Platform {
        architecture: "amd64".to_string(),
        os: "linux".to_string(),
        os_version: None,
        os_features: vec![],
        variant: None,
    };
    assert_eq!(p.to_json(), json(r#"{"architecture": "amd64", "os": "linux"}"#));
    let p = Platform {
        architecture: "arm".to_string(),
        os: "windows".to_string(),
        os_version: Some("10.0".to_string()),
        os_features: vec!["win32k".to_string()],
        variant: Some("v7".to_string()),
    };
    assert_eq!(
        p.to_json(),
        json(r#"{"architecture": "arm", "os": "windows", "os.version": "10.0", "os.features": ["win32k"], "variant": "v7"}"#)
    );
    assert_eq!(Platform::from_json(&p.to_json(), "platform").unwrap(), p);
}

#[test]
fn documents_in_written_form_come_back_unchanged() {
    let text = format!(
        r#"{{"schemaVersion": 2, "mediaType": "application/vnd.oci.image.manifest.v1+json", "artifactType": null,
            "config": {{"mediaType": "a/b", "size": 3, "digest": "sha256:abc", "urls": ["https://example.com/c"],
                        "data": "e30=", "artifactType": "x/y", "annotations": {{"k": "v", "a": "b"}}}},
            "layers": [{{"mediaType": "a/b", "size": -3, "digest": "sha512:abc", "urls": null,
                        "data": null, "artifactType": null, "annotations": {{}}}}],
            "annotations": {{"org.opencontainers.image.created": "2023-07-06T13:22:24Z"}}}}"#
    );
    let document = json(&text);
    let m = ImageManifest::from_json(&document).unwrap();
    assert_eq!(m.to_json(), document);

    let document = json(
        r#"{"schemaVersion": 2, "mediaType": null, "artifactType": "x/y",
            "subject": {"mediaType": "a/b", "size": 3, "digest": "sha256:abc", "urls": null, "data": null,
                        "artifactType": null, "annotations": {}},
            "manifests": [{"mediaType": "a/b", "size": 1, "digest": "sha256:abc", "urls": null,
                           "platform": {"architecture": "amd64", "os": "linux", "variant": "v2"},
                           "annotations": {"x": "y"}},
                          {"mediaType": "c/d", "size": 2, "digest": "sha256:def", "urls": [],
                           "platform": null, "annotations": {}}],
            "annotations": {}}"#,
    );
    let index = ImageIndex::from_json(&document).unwrap();
    assert_eq!(index.to_json(), document);
}

#[test]
fn written_form_fills_in_what_a_document_left_out() {
    let index = ImageIndex::from_slice(br#"{"schemaVersion": 2, "manifests": []}"#).unwrap();
    assert_eq!(
        index.to_json(),
        json(r#"{"schemaVersion": 2, "mediaType": null, "artifactType": null, "manifests": [], "annotations": {}}"#)
    );
    let h = HistoryEntry::from_json(&json("{}"), "history").unwrap();
    assert_eq!(h.to_json(), json(r#"{"empty_layer": false}"#));
    let app = AppConfig::from_json(&json("{}"), "config").unwrap();
    assert_eq!(
        app.to_json(),
        json(r#"{"User": null, "Entrypoint": null, "Cmd": null, "Volumes": null, "Labels": null, "StopSignal": null, "ArgsEscaped": false}"#)
    );
}

#[test]
fn timestamps_are_written_with_whole_groups_of_digits() {
    let h = HistoryEntry::from_json(&json(r#"{"created": "2023-06-28T08:42:50.42500211Z"}"#), "history").unwrap();
    assert_eq!(h.to_json(), json(r#"{"created": "2023-06-28T08:42:50.425002110Z", "empty_layer": false}"#));
}

#[test]
fn timestamps_are_written_in_utc() {
    let c = Config::from_slice(
        br#"{"created": "2023-07-06T15:22:24+02:00", "architecture": "amd64", "os": "linux",
             "rootfs": {"type": "layers", "diff_ids": []}}"#,
    )
    .unwrap();
    assert_eq!(
        c.to_json(),
        json(r#"{"created": "2023-07-06T13:22:24Z", "architecture": "amd64", "os": "linux", "rootfs": {"type": "layers", "diff_ids": []}}"#)
    );
}
