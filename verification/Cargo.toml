[package]
name = "vitaforge"
version = "0.1.0"
edition = "2021"
publish = false

[dependencies]
fluent-bundle = "*"
unic-langid = "*"
md-5 = "0.10"
sha1 = "0.10"
serde = { version = "1", features = ["derive"] }
serde_json = "1"
anyhow = "1"
tokio = { version = "1", features = ["rt-multi-thread", "sync", "time"] }
reqwest = { version = "0.12", default-features = false, features = ["json"] }
rusqlite = { version = "*", features = ["bundled"] }
bytes = "1"
