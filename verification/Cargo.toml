[package]
name = "gtasks"
version = "0.1.0"
edition = "2021"
publish = false

[dependencies]
anyhow = "1"
async-trait = "0.1"
chrono = { version = "0.4", features = ["serde"] }
reqwest = { version = "0.11", default-features = false, features = ["rustls-tls"] }
reqwest-middleware = "0.2"
serde = { version = "1", features = ["derive"] }
serde_json = "1"
task-local-extensions = "0.1"
thiserror = "1"
