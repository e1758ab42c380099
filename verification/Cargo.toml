[package]
name = "facto_ingestion"
version = "0.1.0"
edition = "2021"
publish = false

[dependencies]
anyhow = "*"
async-nats = "*"
axum = "*"
base64 = "*"
dashmap = "*"
ed25519-dalek = "*"
governor = "*"
hex = "*"
metrics = "*"
metrics-exporter-prometheus = "*"
serde = { version = "*", features = ["derive"] }
serde_json = "*"
sha3 = "*"
tokio = { version = "*", features = ["full"] }
tower-http = { version = "*", features = ["compression-gzip", "cors", "trace"] }
tracing = "*"
tracing-subscriber = { version = "*", features = ["env-filter", "json"] }

[dev-dependencies]
