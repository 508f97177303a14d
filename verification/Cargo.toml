[package]
name = "bilirust"
version = "0.1.0"
edition = "2021"
publish = false

[dependencies]
anyhow = "1"
chrono = "0.4"
regex = "1"
reqwest = { version = "0.11", default-features = false, features = ["rustls-tls"] }
rust-crypto = "0.2"
serde = { version = "1", features = ["derive"] }
serde_json = "1"
serde_path_to_error = "0.1"
