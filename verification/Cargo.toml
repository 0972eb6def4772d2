[package]
name = "anon_aadhaar"
version = "0.1.0"
edition = "2021"
publish = false

[dependencies]
serde_json = "=1.0.154"
serde = { version = "=1.0.229", features = ["derive"] }
toml = "1"
mopro-ffi = { version = "=0.3.7", default-features = false, features = ["uniffi"] }
