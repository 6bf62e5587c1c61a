[package]
name = "liboci"
version = "0.1.0"
edition = "2021"
publish = false

[dependencies]
base64 = "0.21"
chrono = { version = "0.4", default-features = false, features = ["std", "serde"] }
indexmap = { version = "2", features = ["serde"] }
schemars = { version = "0.8", features = ["chrono", "indexmap2", "url"] }
serde = { version = "1", features = ["derive"] }
serde_json = { version = "1", features = ["preserve_order"] }
thiserror = "1"
url = { version = "2", features = ["serde"] }
