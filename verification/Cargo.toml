[package]
name = "jassbot"
version = "0.1.0"
edition = "2021"
publish = false

[dependencies]
urlencoding = "=2.1.3"
serde = { version = "=1.0.229", features = ["derive"] }
serde_json = "=1.0.151"
reqwest = { version = "=0.13.5", default-features = false }
tokio = { version = "=1.53.2", features = ["rt-multi-thread", "macros"] }
matrix-sdk = { version = "=0.18.0", default-features = false, features = ["markdown"] }
