[package]
name = "minutes"
version = "0.1.0"
edition = "2021"
publish = false

[dependencies]
anyhow = "1"
hound = "3.5"
rusqlite = { version = "*", features = ["bundled"] }
rusqlite_migration = "*"
serde = { version = "1", features = ["derive"] }
serde_json = "1"
tokio = { version = "1", features = ["full"] }
webrtc-vad = "*"
reqwest = { version = "0.12", default-features = false, features = ["json", "multipart"] }
axum = "0.8"
ndarray = "0.16"
sqlite-vec = "*"
cpal = "*"
