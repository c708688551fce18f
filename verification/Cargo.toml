[package]
name = "beam_pki"
version = "0.1.0"
edition = "2021"
publish = false

[dependencies]
axum = "0.6"
http = "0.2"
hyper = { version = "0.14", features = ["full"] }
hyper-proxy = "0.9"
hyper-tls = "0.5"
mz-http-proxy = { version = "0.1", features = ["hyper"] }
once_cell = "1"
openssl = "0.10"
rsa = "0.9"
serde = { version = "1", features = ["derive"] }
serde_json = "1"
thiserror = "1"
tokio = { version = "1", features = ["full"] }
tracing = "0.1"
