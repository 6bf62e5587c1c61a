use liboci::{BlobRead, Document, OCIDir, OCIDirError, Request, Rule, Step};
use std::io::{Error, ErrorKind};

const MANIFEST_A: &str = "sha256:aaaa";
const MANIFEST_B: &str = "sha256:bbbb";
const CONFIG_A: &str = "sha256:c0a0";
const CONFIG_B: &str = "sha256:c0b0";

fn index_of(digests: &[&str]) -> String {
    let entries: Vec<String> = digests
        .iter()
        .map(|d| format!(r#"{{"mediaType": "application/vnd.oci.image.manifest.v1+json", "size": 1, "digest": "{}"}}"#, d))
        .collect();
    format!(r#"{{"schemaVersion": 2, "manifests": [{}]}}"#, entries.join(", "))
}

fn manifest_with(config_digest: &str, annotation: &str) -> String {
    format!(
        r#"{{"schemaVersion": 2,
            "config": {{"mediaType": "application/vnd.oci.image.config.v1+json", "size": 2, "digest": "{}"}},
            "layers": [{{"mediaType": "application/vnd.oci.image.layer.v1.tar", "size": 3, "digest": "sha256:1a7e5"}}],
            "annotations": {{"name": "{}"}}}}"#,
        config_digest, annotation
    )
}

fn manifest_with_inline_config(config_digest: &str, data: &str) -> String {
    format!(
        r#"{{"schemaVersion": 2,
            "config": {{"mediaType": "application/vnd.oci.image.config.v1+json", "size": 2, "digest": "{}", "data": "{}"}},
            "layers": [{{"mediaType": "application/vnd.oci.image.layer.v1.tar", "size": 3, "digest": "sha256:1a7e5"}}]}}"#,
        config_digest, data
    )
}

fn config_for(architecture: &str) -> String {
    format!(r#"{{"architecture": "{}", "os": "linux", "rootfs": {{"type": "layers", "diff_ids": []}}, "history": []}}"#, architecture)
}

fn blob(digest: &str) -> String {
    format!("blobs/{}", digest.replace(':', "/"))
}

struct Disk {
    files: Vec<(String, String)>,
    denied: Vec<String>,
    asked: Vec<String>,
}

impl Disk {
    fn new(files: Vec<(String, String)>) -> Disk {
        Disk { files, denied: vec![], asked: vec![] }
    }

    fn read(&mut self, request: &Request) -> BlobRead {
        let path = request.path();
        self.asked.push(path.clone());
        if self.denied.contains(&path) {
            return BlobRead::Failed(Error::new(ErrorKind::PermissionDenied, path));
        }
        match self.files.iter().find(|(name, _)| *name == path) {
            Some((_, text)) => BlobRead::Found(text.as_bytes().to_vec()),
            None => BlobRead::Missing(Error::new(ErrorKind::NotFound, path)),
        }
    }

    fn open(&mut self) -> Result<OCIDir, OCIDirError> {
        let (mut loader, mut request) = OCIDir::open();
        loop {
            let read = self.read(&request);
            match loader.feed(read) {
                Step::Read(next, wanted) => {
                    loader = next;
                    request = wanted;
                }
                Step::Loaded(dir) => return Ok(dir),
                Step::Failed(e) => return Err(e),
            }
        }
    }
}

fn one_image() -> Vec<(String, String)> {
    vec![
        ("index.json".to_string(), index_of(&[MANIFEST_A])),
        (blob(MANIFEST_A), manifest_with(CONFIG_A, "a")),
        (blob(CONFIG_A), config_for("amd64")),
    ]
}

fn two_images() -> Vec<(String, String)> {
    vec![
        ("index.json".to_string(), index_of(&[MANIFEST_A, MANIFEST_B])),
        (blob(MANIFEST_A), manifest_with(CONFIG_A, "a")),
        (blob(CONFIG_A), config_for("amd64")),
        (blob(MANIFEST_B), manifest_with(CONFIG_B, "b")),
        (blob(CONFIG_B), config_for("arm64")),
    ]
}

#[test]
fn a_load_starts_with_the_index() {
    let (_, request) = OCIDir::open();
    assert!(matches!(request, Request::Index));
    assert_eq!(request.path(), "index.json");
}

#[test]
fn end_to_end_load() {
    let mut disk = Disk::new(one_image());
    let dir = disk.open().unwrap();
    assert_eq!(dir.index.schema_version, 2);
    assert_eq!(dir.index.manifests.len(), 1);
    assert_eq!(dir.manifests.len(), 1);
    assert_eq!(dir.manifests.get_index(0).unwrap().0, MANIFEST_A);
    assert_eq!(dir.manifests[MANIFEST_A].layers.len(), 1);
    assert_eq!(dir.configs.len(), 1);
    assert_eq!(dir.configs.get_index(0).unwrap().0, CONFIG_A);
    assert_eq!(dir.configs[0].architecture, "amd64");
    assert!(dir.configs[0].rootfs.diff_ids.is_empty());
    assert!(dir.configs[0].history.is_empty());
    assert_eq!(disk.asked, vec!["index.json".to_string(), blob(MANIFEST_A), blob(CONFIG_A)]);
}

#[test]
fn manifests_are_loaded_in_the_order_of_the_index() {
    let mut disk = Disk::new(two_images());
    let dir = disk.open().unwrap();
    let keys: Vec<&String> = dir.manifests.keys().collect();
    assert_eq!(keys, vec![MANIFEST_A, MANIFEST_B]);
    let keys: Vec<&String> = dir.configs.keys().collect();
    assert_eq!(keys, vec![CONFIG_A, CONFIG_B]);
    assert_eq!(dir.configs[CONFIG_B].architecture, "arm64");
    assert_eq!(
        disk.asked,
        vec!["index.json".to_string(), blob(MANIFEST_A), blob(CONFIG_A), blob(MANIFEST_B), blob(CONFIG_B)]
    );
}

#[test]
fn an_index_without_manifests_needs_one_read() {
    let mut disk = Disk::new(vec![("index.json".to_string(), index_of(&[]))]);
    let dir = disk.open().unwrap();
    assert!(dir.manifests.is_empty() && dir.configs.is_empty());
    assert_eq!(disk.asked, vec!["index.json".to_string()]);
}

#[test]
fn missing_config_blob_fails() {
    let mut files = one_image();
    files.pop();
    let mut disk = Disk::new(files);
    match disk.open() {
        Err(OCIDirError::BlobNotFound(digest)) => assert_eq!(digest, CONFIG_A),
        other => panic!("unexpected: {:?}", other),
    }
}

#[test]
fn missing_manifest_blob_fails() {
    let mut files = two_images();
    files.remove(3);
    let mut disk = Disk::new(files);
    match disk.open() {
        Err(OCIDirError::BlobNotFound(digest)) => assert_eq!(digest, MANIFEST_B),
        other => panic!("unexpected: {:?}", other),
    }
    // the configuration of the second manifest was never asked for
    assert_eq!(disk.asked.len(), 4);
}

#[test]
fn missing_index_is_a_failure_of_the_file_system() {
    let mut disk = Disk::new(vec![]);
    match disk.open() {
        Err(OCIDirError::IO(Document::Index, e)) => assert_eq!(e.kind(), ErrorKind::NotFound),
        other => panic!("unexpected: {:?}", other),
    }
    assert_eq!(disk.asked, vec!["index.json".to_string()]);
}

#[test]
fn other_failures_of_the_file_system_are_handed_on() {
    let mut disk = Disk::new(one_image());
    disk.denied.push(blob(CONFIG_A));
    match disk.open() {
        Err(OCIDirError::IO(Document::Blob(digest), e)) => {
            assert_eq!(digest, CONFIG_A);
            assert_eq!(e.kind(), ErrorKind::PermissionDenied);
        }
        other => panic!("unexpected: {:?}", other),
    }
    let mut disk = Disk::new(one_image());
    disk.denied.push(blob(MANIFEST_A));
    assert!(matches!(disk.open(), Err(OCIDirError::IO(Document::Blob(d), _)) if d == MANIFEST_A));
    let mut disk = Disk::new(one_image());
    disk.denied.push("index.json".to_string());
    assert!(matches!(disk.open(), Err(OCIDirError::IO(Document::Index, _))));
}

#[test]
fn inline_config_is_taken_without_a_read() {
    // base64 of {"architecture":"riscv64","os":"linux","rootfs":{"type":"layers","diff_ids":[]}}
    let data = "eyJhcmNoaXRlY3R1cmUiOiJyaXNjdjY0Iiwib3MiOiJsaW51eCIsInJvb3RmcyI6eyJ0eXBlIjoibGF5ZXJzIiwiZGlmZl9pZHMiOltdfX0=";
    let mut disk = Disk::new(vec![
        ("index.json".to_string(), index_of(&[MANIFEST_A])),
        (blob(MANIFEST_A), manifest_with_inline_config(CONFIG_A, data)),
    ]);
    let dir = disk.open().unwrap();
    assert_eq!(dir.configs[CONFIG_A].architecture, "riscv64");
    assert_eq!(disk.asked, vec!["index.json".to_string(), blob(MANIFEST_A)]);
}

#[test]
fn inline_config_wins_over_the_file() {
    let data = "eyJhcmNoaXRlY3R1cmUiOiJyaXNjdjY0Iiwib3MiOiJsaW51eCIsInJvb3RmcyI6eyJ0eXBlIjoibGF5ZXJzIiwiZGlmZl9pZHMiOltdfX0=";
    let mut disk = Disk::new(vec![
        ("index.json".to_string(), index_of(&[MANIFEST_A])),
        (blob(MANIFEST_A), manifest_with_inline_config(CONFIG_A, data)),
        (blob(CONFIG_A), config_for("amd64")),
    ]);
    let dir = disk.open().unwrap();
    assert_eq!(dir.configs[CONFIG_A].architecture, "riscv64");
}

#[test]
fn inline_config_that_is_no_json_fails() {
    // base64 of "hello"
    let mut disk = Disk::new(vec![
        ("index.json".to_string(), index_of(&[MANIFEST_A])),
        (blob(MANIFEST_A), manifest_with_inline_config(CONFIG_A, "aGVsbG8=")),
        (blob(CONFIG_A), config_for("amd64")),
    ]);
    assert!(matches!(disk.open(), Err(OCIDirError::SerdeJson(Document::Blob(d), _)) if d == CONFIG_A));
}

#[test]
fn a_later_manifest_of_the_same_digest_replaces_the_earlier() {
    let mut disk = Disk::new(vec![
        ("index.json".to_string(), index_of(&[MANIFEST_A, MANIFEST_B, MANIFEST_A])),
        (blob(MANIFEST_A), manifest_with(CONFIG_A, "a")),
        (blob(CONFIG_A), config_for("amd64")),
        (blob(MANIFEST_B), manifest_with(CONFIG_A, "b")),
    ]);
    let dir = disk.open().unwrap();
    assert_eq!(dir.index.manifests.len(), 3);
    let keys: Vec<&String> = dir.manifests.keys().collect();
    assert_eq!(keys, vec![MANIFEST_A, MANIFEST_B]);
    assert_eq!(dir.manifests[MANIFEST_B].annotations["name"], "b");
    assert_eq!(dir.configs.len(), 1);
    assert_eq!(disk.asked.len(), 7);
}

#[test]
fn the_first_failure_ends_the_load() {
    let mut disk = Disk::new(vec![
        ("index.json".to_string(), index_of(&[MANIFEST_A, MANIFEST_B])),
        (blob(MANIFEST_A), r#"{"schemaVersion": 1}"#.to_string()),
        (blob(MANIFEST_B), manifest_with(CONFIG_B, "b")),
        (blob(CONFIG_B), config_for("arm64")),
    ]);
    match disk.open() {
        Err(OCIDirError::Validation(Document::Blob(digest), e)) => {
            assert_eq!(digest, MANIFEST_A);
            assert_eq!(e.rule, Rule::InvalidSchemaVersion);
            assert_eq!(e.field, "schemaVersion");
        }
        other => panic!("unexpected: {:?}", other),
    }
    assert_eq!(disk.asked, vec!["index.json".to_string(), blob(MANIFEST_A)]);
}

#[test]
fn documents_that_break_the_format_fail_the_load() {
    let mut disk = Disk::new(vec![("index.json".to_string(), r#"{"schemaVersion": 2, "manifests": [], "x": 1}"#.to_string())]);
    match disk.open() {
        Err(OCIDirError::Validation(Document::Index, e)) => {
            assert_eq!(e.rule, Rule::UnknownField);
            assert_eq!(e.field, "x");
        }
        other => panic!("unexpected: {:?}", other),
    }
    let mut disk = Disk::new(vec![("index.json".to_string(), "not json".to_string())]);
    assert!(matches!(disk.open(), Err(OCIDirError::SerdeJson(Document::Index, _))));
    let mut files = one_image();
    files[2].1 = r#"{"architecture": "amd64"}"#.to_string();
    let mut disk = Disk::new(files);
    match disk.open() {
        Err(OCIDirError::Validation(Document::Blob(digest), e)) => {
            assert_eq!(digest, CONFIG_A);
            assert_eq!(e.rule, Rule::MissingField);
            assert_eq!(e.field, "os");
        }
        other => panic!("unexpected: {:?}", other),
    }
    let mut files = one_image();
    files[1].1 = "{".to_string();
    let mut disk = Disk::new(files);
    assert!(matches!(disk.open(), Err(OCIDirError::SerdeJson(Document::Blob(d), _)) if d == MANIFEST_A));
}

#[test]
fn an_index_with_a_malformed_digest_is_no_index() {
    let mut disk = Disk::new(vec![("index.json".to_string(), index_of(&["sha256"]))]);
    match disk.open() {
        Err(OCIDirError::Validation(Document::Index, e)) => assert_eq!(e.field, "digest"),
        other => panic!("unexpected: {:?}", other),
    }
}

#[test]
fn a_load_needs_at_most_two_reads_for_each_manifest_and_one() {
    let mut disk = Disk::new(two_images());
    disk.open().unwrap();
    assert!(disk.asked.len() <= 2 * 2 + 1);
}
