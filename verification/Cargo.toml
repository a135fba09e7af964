[package]
name = "jwt_verify"
version = "0.1.0"
edition = "2021"
publish = false

[dependencies]
base64 = "0.22"
serde_json = "1"
ring = "0.17"
cache_control = "*"
serde = "1"
serde_derive = "1"
tokio = { version = "1", features = ["sync", "rt"] }
ureq = "2.9"
