[package]
name = "newrelic_exporter"
version = "0.1.0"
edition = "2021"
publish = false

[dependencies]
flate2 = "1"
futures-util = "0.3"
log = "0.4"
reqwest = { version = "0.12", default-features = false, features = ["rustls-tls"] }
serde = "1"
serde_json = "1"
tokio = { version = "1", features = ["time"] }
tracing = "0.1"
