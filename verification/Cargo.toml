[package]
name = "hologram_live"
version = "0.1.0"
edition = "2021"
publish = false

[dependencies]
axum = "0.8"
blake3 = { version = "1", features = ["pure"] }
kameo = "*"
reqwest = { version = "0.12", default-features = false, features = ["json", "stream"] }
serde = { version = "1", features = ["derive"] }
serde_json = "1"
tokio = { version = "1", features = ["rt-multi-thread", "macros", "sync", "time", "process", "net"] }
tokio-stream = "0.1"
tonic = { version = "0.12", default-features = false, features = ["codegen"] }
tracing = "0.1"
utoipa = "5"
