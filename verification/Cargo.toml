[package]
name = "polymarket_client"
version = "0.1.0"
edition = "2021"
publish = false

[dependencies]
alloy = { version = "=1.8.3", default-features = false, features = ["providers", "json-rpc", "signers", "sol-types"] }
base64 = "=0.22.1"
chrono = { version = "=0.4.45", default-features = false, features = ["clock"] }
futures = { version = "=0.3.34", default-features = false, features = ["std", "async-await"] }
hmac = "=0.12.1"
lazy_static = "=1.5.1"
num-traits = "=0.2.19"
rand = "=0.9.5"
reqwest = { version = "=0.12.28", default-features = false, features = ["json"] }
serde = { version = "=1.0.229", features = ["derive"] }
serde_json = "=1.0.154"
sha2 = "=0.10.9"
thiserror = "=2.0.21"
tokio = { version = "=1.54.1", features = ["macros", "net", "rt", "sync", "time"] }
tokio-stream = { version = "=0.1.19", features = ["sync"] }
tokio-tungstenite = "=0.26.2"
tracing = "=0.1.44"
tungstenite = "=0.26.2"
uuid = { version = "=1.29.0", features = ["serde"] }
