[package]
name = "ctos"
version = "0.1.0"
edition = "2021"
publish = false

[dependencies]
yaml-rust = "0.4"
serde_json = "1"
serde = { version = "1", features = ["derive"] }
clap = { version = "4", features = ["derive"] }
reqwest = { version = "0.11", default-features = false, features = ["blocking", "rustls-tls"] }
anyhow = "1"
