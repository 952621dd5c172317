[package]
name = "inference_server"
version = "0.1.0"
edition = "2021"
publish = false

[dependencies]
serde_json = "1"
serde_yaml = "0.9"
rand = "0.9"
uuid = { version = "1", features = ["v7"] }
serde = { version = "1", features = ["derive"] }
axum = "0.8"
tokio = { version = "1", features = ["full"] }
reqwest = { version = "0.12", default-features = false, features = ["json", "stream"] }
futures-util = "0.3"
eventsource-stream = "0.2"
async-trait = "0.1"
tracing = "0.1"
tracing-subscriber = { version = "0.3", features = ["env-filter", "json"] }
tracing-appender = "0.2"
opentelemetry_sdk = "*"
opentelemetry-appender-tracing = "*"
opentelemetry-stdout = "*"
config = { version = "*", default-features = false, features = ["yaml"] }
