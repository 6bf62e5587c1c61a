//! Typed model of the OCI image layout and its content-addressed resolution.
//!
//! A layout is a directory of JSON documents that name each other by
//! digest: an index lists manifests, a manifest names a configuration and
//! layers. This crate reads the documents into typed values, holds them to
//! the rules of the format, and decides, step by step, which file a load of
//! the whole layout needs next.

pub mod text;
pub mod digest;
pub mod media_type;
pub mod json;
pub mod error;
pub mod ordered;
pub mod timestamp;
pub mod inline;
pub mod reference;
pub mod fields;
pub mod emit;
pub mod descriptor;
pub mod index;
pub mod manifest;
pub mod config;
pub mod layout;
pub mod laws;

pub use config::{AppConfig, Config, HistoryEntry, RootFS, RootFSKind};
pub use descriptor::{ContentDescriptor, Resolution};
pub use digest::Digest;
pub use error::{Document, DocumentError, OCIDirError, Pattern, Rule, ValidationError};
pub use index::{ImageIndex, Manifest, Platform};
pub use inline::Base64;
pub use layout::{BlobRead, ImageLayout, ImageLayoutVersion, Loader, OCIDir, Request, Step};
pub use manifest::ImageManifest;
pub use reference::{ContentDiscoveryResponse, ImageRef, ImageRefError};
pub use timestamp::Timestamp;
