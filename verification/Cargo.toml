[package]
name = "janus_gateway"
version = "0.1.0"
edition = "2021"
publish = false

[dependencies]
dashmap = "6"
uuid = { version = "1", features = ["v4"] }
getrandom = "0.2"
str0m = "0.11"
serde = { version = "1", features = ["derive"] }
serde_json = "1"
toml = "0.8"
tokio = { version = "1", features = ["full"] }
async-trait = "0.1"
axum = "0.7"
tokio-tungstenite = "0.24"
futures-util = "0.3"
hyper = { version = "1", features = ["client", "http1"] }
hyper-util = { version = "0.1", features = ["client-legacy", "http1", "tokio"] }
http-body-util = "0.1"
hyper-rustls = { version = "0.27", default-features = false, features = ["http1", "ring", "webpki-roots"] }
libloading = "0.8"
thiserror = "1"
tracing = "0.1"
tracing-subscriber = "0.3"
flate2 = "1"
