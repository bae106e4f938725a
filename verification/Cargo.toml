[package]
name = "logdaemon"
version = "0.1.0"
edition = "2021"
publish = false

[dependencies]
anyhow = "1"
arrow = "=53.4.1"
axum = "0.7"
bytes = "1"
chrono = "0.4"
clap = { version = "4", features = ["derive"] }
jsonschema = { version = "=0.17.1", default-features = false }
metrics = "0.21"
metrics-exporter-prometheus = "0.12"
opentelemetry = "0.22"
opentelemetry-otlp = "0.15"
opentelemetry_sdk = { version = "0.22", features = ["rt-tokio"] }
parquet = "=53.4.1"
serde = { version = "1", features = ["derive"] }
serde_json = "1"
simd-json = "=0.13.11"
tokio = { version = "1", features = ["full"] }
tokio-uring = "0.5"
toml = "0.8"
tower-http = { version = "0.5", features = ["cors", "trace"] }
tracing = "0.1"
tracing-opentelemetry = "0.23"
tracing-subscriber = { version = "0.3", features = ["env-filter"] }
