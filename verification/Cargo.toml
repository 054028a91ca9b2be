[package]
name = "carbide"
version = "0.1.0"
edition = "2021"
publish = false

[dependencies]
sha2 = "0.10"
prometheus = "0.13"
serde = { version = "1", features = ["derive"] }
serde_json = "1"
tokio = { version = "1", features = ["sync", "rt", "macros", "net", "time"] }
dashmap = "6"
mac_address = "1"
chrono = "0.4"
thiserror = "2"
opentelemetry = "*"
regex = "1"
lazy_static = "1"
hyper = { version = "1", features = ["server", "http1"] }
hyper-util = { version = "0.1", features = ["tokio"] }
http = "1"
eyre = "0.6"
tracing = "0.1"
