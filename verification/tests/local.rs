use liboci::{BlobRead, Config, OCIDir, OCIDirError, Request, Step};
use std::io::{Error, ErrorKind};

const UBUNTU_CONFIG: &str = r#"{
    "architecture": "amd64",
    "config": {
        "User": null,
        "Env": ["PATH=/usr/local/sbin:/usr/local/bin:/usr/sbin:/usr/bin:/sbin:/bin"],
        "Entrypoint": null,
        "Cmd": ["/bin/bash"],
        "Volumes": null,
        "Labels": {
            "org.opencontainers.image.ref.name": "ubuntu",
            "org.opencontainers.image.version": "22.04"
        },
        "StopSignal": null,
        "ArgsEscaped": false
    },
    "created": "2023-06-28T08:42:50.425002110Z",
    "history": [
        {"created": "2023-06-28T08:42:46.742299628Z", "created_by": "/bin/sh -c #(nop)  ARG RELEASE", "empty_layer": true},
        {"created": "2023-06-28T08:42:50.087844690Z", "created_by": "/bin/sh -c #(nop) ADD file:1 in / ", "empty_layer": false},
        {"created": "2023-06-28T08:42:50.425002110Z", "created_by": "/bin/sh -c #(nop)  CMD [\"/bin/bash\"]", "empty_layer": true}
    ],
    "os": "linux",
    "rootfs": {
        "type": "layers",
        "diff_ids": ["sha256:59c56aee1fb4dbaeb334aef06088b49902105d1ea0c15a9e5a2a9ce560fa4c5d"]
    }
}"#;

const UBUNTU_INDEX: &str = r#"{
    "schemaVersion": 2,
    "mediaType": "application/vnd.oci.image.index.v1+json",
    "manifests": [
        {
            "mediaType": "application/vnd.oci.image.manifest.v1+json",
            "digest": "sha256:b060fffe8e1561c9c3e6dea6db487b900100fc26830b9ea2ec966c151ab4c020",
            "size": 424,
            "annotations": {"org.opencontainers.image.ref.name": "22.04"}
        }
    ]
}"#;

const UBUNTU_MANIFEST: &str = r#"{
    "schemaVersion": 2,
    "mediaType": "application/vnd.oci.image.manifest.v1+json",
    "config": {
        "mediaType": "application/vnd.oci.image.config.v1+json",
        "digest": "sha256:5a81c4b8502e4979e75bd8f91343b95b0d695ab67f241dbed0d1530a35bde1eb",
        "size": 2297
    },
    "layers": [
        {
            "mediaType": "application/vnd.oci.image.layer.v1.tar+gzip",
            "digest": "sha256:3153aa388d026c26a2235e1ed0163e350e451f41a8a313e1804d7e1afb857ab4",
            "size": 29533950
        }
    ]
}"#;

const POSTGRESQL_CONFIG: &str = r#"{
    "architecture": "amd64",
    "author": "Bitnami",
    "config": {
        "User": "1001",
        "ExposedPorts": {"5432/tcp": {}},
        "Env": ["PATH=/opt/bitnami/postgresql/bin:/usr/bin:/bin", "HOME=/", "OS_ARCH=amd64"],
        "Entrypoint": ["/opt/bitnami/scripts/postgresql/entrypoint.sh"],
        "Cmd": ["/opt/bitnami/scripts/postgresql/run.sh"],
        "Volumes": {"/bitnami/postgresql": {}, "/docker-entrypoint-initdb.d": {}},
        "WorkingDir": "/",
        "Labels": {"org.opencontainers.image.title": "postgresql", "org.opencontainers.image.version": "15.3.0"},
        "StopSignal": "SIGINT",
        "ArgsEscaped": true
    },
    "created": "2023-07-06T13:22:24.821560577Z",
    "history": [
        {"author": "kaniko", "created": "2023-07-06T13:20:18.751212044Z", "created_by": "ADD rootfs.tar / ", "empty_layer": false},
        {"author": "kaniko", "created": "2023-07-06T13:22:24Z", "created_by": "USER 1001", "comment": "no layer", "empty_layer": true}
    ],
    "os": "linux",
    "rootfs": {
        "type": "layers",
        "diff_ids": [
            "sha256:6d1d9ed7d2a1a7a5b7d8d884e6ab0fbd2897ea5b8e0d674ae7c5bfb5a0cb8ef2",
            "sha256:7a2ba1b6ae1d4b0c8e0e9e0d0d9fbeb2a0d3c6e7a9e3c6df3b7f3b6a6ac9d8c1"
        ]
    }
}"#;

const POSTGRESQL_INDEX: &str = r#"{
    "schemaVersion": 2,
    "manifests": [
        {
            "mediaType": "application/vnd.oci.image.manifest.v1+json",
            "digest": "sha256:9b2a28eb47540823042a2ba401386845089bb7b62a9637d55816132c4c3c36eb",
            "size": 1022
        }
    ]
}"#;

const POSTGRESQL_MANIFEST: &str = r#"{
    "schemaVersion": 2,
    "mediaType": "application/vnd.oci.image.manifest.v1+json",
    "config": {
        "mediaType": "application/vnd.oci.image.config.v1+json",
        "digest": "sha256:23e3fb27f226bdd839905bdf48698f1dc5f1b848962e85b74e8a2dec06dc19e0",
        "size": 6121
    },
    "layers": [
        {
            "mediaType": "application/vnd.oci.image.layer.v1.tar+gzip",
            "digest": "sha256:503d1e6d7a8b2cf9b5e5e5b2b3c6ad2dbcbb4e35ba601e7ad0c3b89a13b8d5c5",
            "size": 30984619
        },
        {
            "mediaType": "application/vnd.oci.image.layer.v1.tar+gzip",
            "digest": "sha256:578b1b1e8b9b8e7a9b3e1f0cd5e5d6a4b2d0cf7b3c8e7d3f9a1b2c3d4e5f6a7b",
            "size": 90490868
        }
    ]
}"#;

fn ubuntu() -> Vec<(&'static str, &'static str)> {
    vec![
        ("index.json", UBUNTU_INDEX),
        ("blobs/sha256/b060fffe8e1561c9c3e6dea6db487b900100fc26830b9ea2ec966c151ab4c020", UBUNTU_MANIFEST),
        ("blobs/sha256/5a81c4b8502e4979e75bd8f91343b95b0d695ab67f241dbed0d1530a35bde1eb", UBUNTU_CONFIG),
    ]
}

fn bitnami_postgresql() -> Vec<(&'static str, &'static str)> {
    vec![
        ("index.json", POSTGRESQL_INDEX),
        ("blobs/sha256/9b2a28eb47540823042a2ba401386845089bb7b62a9637d55816132c4c3c36eb", POSTGRESQL_MANIFEST),
        ("blobs/sha256/23e3fb27f226bdd839905bdf48698f1dc5f1b848962e85b74e8a2dec06dc19e0", POSTGRESQL_CONFIG),
    ]
}

fn read(files: &[(&str, &str)], request: &Request) -> BlobRead {
    let path = request.path();
    match files.iter().find(|(name, _)| *name == path) {
        Some((_, text)) => BlobRead::Found(text.as_bytes().to_vec()),
        None => BlobRead::Missing(Error::new(ErrorKind::NotFound, path)),
    }
}

fn open(files: &[(&str, &str)]) -> Result<OCIDir, OCIDirError> {
    let (mut loader, mut request) = OCIDir::open();
    loop {
        match loader.feed(read(files, &request)) {
            Step::Read(next, wanted) => {
                loader = next;
                request = wanted;
            }
            Step::Loaded(dir) => return Ok(dir),
            Step::Failed(e) => return Err(e),
        }
    }
}

#[test]
fn test_get_ubuntu_config() {
    let config: Config = Config::from_slice(UBUNTU_CONFIG.as_bytes()).unwrap();
    assert_eq!(config.architecture, "amd64");
    assert_eq!(config.os, "linux");
}

#[test]
fn load_oci_dir() {
    let dir = open(&ubuntu()).unwrap();
    assert_eq!(dir.index.schema_version, 2);
    assert_eq!(dir.manifests[0].schema_version, 2);
}

#[test]
fn load_oci_dir2() {
    let dir = open(&bitnami_postgresql()).unwrap();
    assert_eq!(dir.index.schema_version, 2);
    assert_eq!(dir.manifests[0].schema_version, 2);
}

#[test]
fn read_write_oci_dir2() {
    let dir = open(&bitnami_postgresql()).unwrap();
    assert_eq!(dir.index.schema_version, 2);
    assert_eq!(dir.manifests[0].schema_version, 2);
    let serialized = dir.configs[0].to_json();
    let expected: serde_json::Value = serde_json::from_str(POSTGRESQL_CONFIG).unwrap();
    assert_eq!(expected, serialized);
}

#[test]
fn ubuntu_config_comes_back_unchanged() {
    let config = Config::from_slice(UBUNTU_CONFIG.as_bytes()).unwrap();
    let expected: serde_json::Value = serde_json::from_str(UBUNTU_CONFIG).unwrap();
    assert_eq!(expected, config.to_json());
}
