[package]
name = "cloudflare"
version = "0.1.0"
edition = "2021"
publish = false

[dependencies]
http-body-util = "0.1"
hyper = { version = "1", features = ["client", "http1"] }
hyper-tls = "0.6"
hyper-util = { version = "0.1", features = ["client-legacy", "http1", "tokio"] }
log = "0.4"
serde = { version = "1", features = ["derive"] }
serde_json = "1"
url = "2"
