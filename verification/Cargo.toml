[package]
name = "ubiquitimes"
version = "0.1.0"
edition = "2021"
publish = false

[dependencies]
rsa = "=0.9.10"
rand = "=0.8.8"
serde = { version = "=1.0.229", features = ["derive"] }
serde_json = "=1.0.154"
sled = "=0.34.7"
jsonwebtoken = "=9.3.1"
base64 = "=0.22.1"
reqwest = { version = "=0.11.27", default-features = false, features = ["rustls-tls"] }
poise = "=0.6.2"
tokio = { version = "=1.54.1", features = ["macros", "rt-multi-thread", "sync"] }
anyhow = "=1.0.104"
thiserror = "=1.0.69"
tracing = "=0.1.44"
