[package]
name = "did_playground"
version = "0.1.0"
edition = "2021"
publish = false

[dependencies]
anyhow = "1"
axum = "=0.5.17"
env_logger = "=0.9.3"
identity_core = { version = "=0.6.3", default-features = false }
identity_did = { version = "=0.6.3", default-features = false }
identity_iota = { version = "=0.6.3", default-features = false, features = ["async"] }
reqwest = { version = "=0.11.27", default-features = false, features = ["json"] }
serde = { version = "=1.0.219", features = ["derive"] }
thiserror = "1"
time = "=0.3.41"
tokio = { version = "1", features = ["full"] }
tracing = "0.1"
tracing-subscriber = { version = "0.3", features = ["env-filter"] }
