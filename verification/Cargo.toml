[package]
name = "zendns"
version = "0.1.0"
edition = "2021"
publish = false

[dependencies]
dashmap = "5"
dirs = "5"
hyper = { version = "0.14", features = ["full"] }
reqwest = { version = "0.11", default-features = false, features = ["rustls-tls"] }
rustls-pemfile = "1"
serde = { version = "1", features = ["derive"] }
tokio = { version = "1", features = ["full"] }
tokio-rustls = "0.24"
toml = "0.8"
trust-dns-proto = { version = "0.23", features = ["dnssec"] }
trust-dns-resolver = { version = "0.23", features = ["dnssec-ring"] }
