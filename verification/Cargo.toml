[package]
name = "unleash_openfeature"
version = "0.1.0"
edition = "2021"
publish = false

[dependencies]
chrono = "0.4"
log = "0.4"
open-feature = "*"
serde_json = "1"
time = "0.3"
tokio = { version = "1", features = ["rt", "sync"] }
unleash-api-client = "*"
