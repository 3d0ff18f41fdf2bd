[package]
name = "hanzo-tunnel"
version = "0.1.0"
edition = "2021"
publish = false

[dependencies]
futures = "0.3"
http = "1"
mdns-sd = "*"
serde = { version = "1", features = ["derive"] }
serde_json = "1"
thiserror = "2"
tokio = { version = "1", features = ["full"] }
tokio-tungstenite = { version = "0.26", features = ["rustls-tls-webpki-roots"] }
tracing = "0.1"
uuid = { version = "1", features = ["v4"] }
