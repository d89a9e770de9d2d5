[package]
name = "tls_utils"
version = "0.1.0"
edition = "2021"
publish = false

[dependencies]
anyhow = "1"
arc-swap = "1"
rustls = { version = "0.23", default-features = false, features = ["ring", "std", "tls12", "logging"] }
rustls-pemfile = "2"
tracing = "0.1"

[dev-dependencies]
tempfile = "3"
rcgen = "0.13"
