[package]
name = "kadedb_services"
version = "0.1.0"
edition = "2021"
publish = false

[dependencies]
axum = "0.7"
jsonwebtoken = "9"
prost = "0.13"
serde = { version = "1", features = ["derive"] }
serde_json = "1"
thiserror = "1"
tokio = { version = "1", features = ["full"] }
tokio-stream = { version = "0.1", features = ["net"] }
tonic = "0.12"
tracing = "0.1"
tracing-subscriber = { version = "0.3", features = ["env-filter"] }
