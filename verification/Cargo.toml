[package]
name = "polyio"
version = "0.1.0"
edition = "2021"
publish = false

[dependencies]
async-tungstenite = { version = "=0.35.0", features = ["tokio-runtime", "tokio-native-tls"] }
chrono = "=0.4.45"
futures = "=0.3.34"
num-decimal = { version = "=0.2.5", features = ["serde"] }
serde = { version = "=1.0.229", features = ["derive"] }
serde_json = { version = "=1.0.154", features = ["raw_value"] }
time-util = { version = "=0.3.4", features = ["chrono", "chrono-tz", "serde"] }
tracing = "=0.1.44"
