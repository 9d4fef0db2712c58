[package]
name = "coinbase-rs"
version = "0.3.0"
edition = "2021"
publish = false

[dependencies]
bigdecimal = { version = "=0.4.11", features = ["serde"] }
chrono = { version = "=0.4.45", features = ["serde"] }
coarsetime = "=0.1.38"
elliptic-curve = { version = "=0.13.8", features = ["pem", "sec1"] }
futures = "=0.3.34"
http = "=0.2.12"
hyper = { version = "=0.14.32", features = ["client", "http1", "http2", "tcp", "stream"] }
hyper-tls = "=0.5.0"
jwt-simple = { version = "=0.12.17", default-features = false, features = ["pure-rust"] }
p256 = "=0.13.2"
serde = { version = "=1.0.229", features = ["derive"] }
serde_json = { version = "=1.0.154", features = ["preserve_order"] }
tokio = { version = "=1.54.1", features = ["time", "rt", "macros"] }
tokio-stream = "=0.1.19"
uritemplate-next = "=0.2.0"
uuid = { version = "=1.29.0", features = ["serde"] }
