[package]
name = "api_shell"
version = "0.1.0"
edition = "2021"
publish = false

[dependencies]
base64 = "=0.22.1"
chrono = { version = "=0.4.45", default-features = false, features = ["clock", "std", "serde"] }
derive_builder = "=0.20.2"
jsonwebtoken = { version = "=9.3.1", default-features = false }
prometheus = { version = "=0.13.4", default-features = false }
rocket = { version = "=0.5.2", features = ["json"] }
serde = { version = "=1.0.229", features = ["derive"] }
serde_json = "=1.0.154"
uuid = { version = "=1.29.0", features = ["v4", "serde"] }
