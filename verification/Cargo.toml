[package]
name = "zdict"
version = "0.1.0"
edition = "2021"
publish = false

[dependencies]
kuchiki = "0.8"
clap = { version = "3", features = ["derive"] }
env_logger = "0.9"
log = "0.4"
reqwest = { version = "0.11", default-features = false, features = ["blocking", "rustls-tls"] }
rusqlite = { version = "0.26", features = ["bundled"] }
serde = { version = "1", features = ["derive"] }
serde_json = "1"
