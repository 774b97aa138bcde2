[package]
name = "application"
version = "0.1.0"
edition = "2021"
publish = false

[dependencies]
anyhow = "1"
async-trait = "*"
atproto-identity = "*"
atproto-oauth = "*"
base64 = "*"
chrono = "0.4"
clap = { version = "4", features = ["derive"] }
elliptic-curve = { version = "*", features = ["jwk"] }
reqwest = { version = "*", default-features = false, features = ["rustls-tls"] }
serde = { version = "1", features = ["derive"] }
serde_json = "1"
sha2 = "*"
thiserror = "*"
tokio = { version = "1", features = ["sync", "rt", "macros", "io-util"] }
tracing = "*"
urlencoding = "*"
uuid = { version = "1", features = ["v4"] }
