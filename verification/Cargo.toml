[package]
name = "cnoidc"
version = "0.1.0"
edition = "2021"
publish = false

[dependencies]
anyhow = "1"
axum = "0.8"
chrono = { version = "=0.4.45", features = ["serde"] }
famedly-zitadel-rust-client = "=0.14.0"
futures = "0.3"
humantime = "=2.4.0"
humantime-serde = "1"
k8s-openapi = { version = "=0.29.0", features = ["latest", "schemars"] }
kube = { version = "=5.0.0", features = ["runtime", "derive"] }
reqwest = { version = "=0.13.5", features = ["json", "query"] }
reqwest-middleware = { version = "=0.5.2", features = ["json", "query"] }
schemars = "1"
serde = { version = "1", features = ["derive"] }
serde_json = "=1.0.154"
serde_yaml_ng = "0.10"
tempfile = "3"
thiserror = "2"
tokio = { version = "1", features = ["full"] }
toml = "1.1"
tracing = "0.1"
tracing-subscriber = { version = "0.3", features = ["env-filter"] }
url = { version = "=2.5.8", features = ["serde"] }
