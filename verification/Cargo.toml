[package]
name = "matrix_bridge"
version = "0.1.0"
edition = "2021"
publish = false

[dependencies]
matrix-sdk = { version = "0.7", default-features = false, features = ["e2e-encryption", "sqlite", "rustls-tls"] }
tokio = { version = "1", features = ["rt-multi-thread", "time", "sync"] }
url = "2"
serde = { version = "1", features = ["derive"] }
serde_json = "1"
once_cell = "1"
