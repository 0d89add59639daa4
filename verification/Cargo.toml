[package]
name = "model_registry"
version = "0.1.0"
edition = "2021"
publish = false

[dependencies]
anyhow = "*"
async-trait = "*"
axum = { version = "*", features = ["multipart"] }
chrono = "*"
cloud-storage = "*"
serde = { version = "*", features = ["derive"] }
serde_json = "*"
tempfile = "*"
tokio = { version = "*", features = ["full"] }
tower-http = { version = "*", features = ["cors"] }
tracing-subscriber = "*"
uuid = { version = "*", features = ["v4"] }
