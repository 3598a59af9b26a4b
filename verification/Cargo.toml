[package]
name = "push_relay"
version = "0.1.0"
edition = "2021"
publish = false

[dependencies]
axum = "=0.6.20"
base64ct = { version = "=1.8.3", features = ["alloc"] }
futures = "=0.3.34"
http = "=1.5.0"
hyper = { version = "=0.14.32", features = ["client", "http1"] }
hyper-rustls = "=0.24.2"
serde = { version = "=1.0.229", features = ["derive"] }
serde_json = "=1.0.154"
tokio = { version = "=1.54.1", features = ["full"] }
tokio-stream = { version = "=0.1.19", features = ["time"] }
tracing = "=0.1.44"
tracing-subscriber = "=0.3.23"
web-push-native = "=0.5.0"
