[package]
name = "record_store"
version = "0.1.0"
edition = "2021"
publish = false

[dependencies]
uuid = { version = "=1.27.0", features = ["v7", "serde"] }
serde = { version = "1", features = ["derive"] }
serde_json = "1"
anyhow = "1"
derive_builder = "*"
postgres-types = { version = "*", features = ["derive"] }
tokio-postgres = { version = "*", features = ["with-uuid-1", "with-serde_json-1"] }
tokio = { version = "1", features = ["rt"] }
redis = "=1.7.1"
