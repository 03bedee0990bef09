[package]
name = "openapi_core"
version = "0.1.0"
edition = "2021"
publish = false

[dependencies]
serde_json = { version = "1", features = ["preserve_order"] }
base64 = "0.13"
regex = "1"
chrono = "0.4"
