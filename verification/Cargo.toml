[package]
name = "qovery_engine"
version = "0.1.0"
edition = "2021"
publish = false

[dependencies]
chrono = "0.4"
reqwest = { version = "0.11", default-features = false }
retry = "1"
semver = "1"
serde = { version = "1", features = ["derive"] }
serde_json = "1"
tera = "1"
tracing = "0.1"
uuid = "1"
