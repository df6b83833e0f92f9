[package]
name = "mystar"
version = "0.1.0"
edition = "2021"
publish = false

[dependencies]
anyhow = "=1.0.104"
chrono = "0.4"
cpal = "0.15"
crossbeam = "0.8"
erased-serde = "0.4"
futures-util = "=0.3.34"
log = "=0.4.34"
log4rs = "1"
mac_address = "1"
md5 = "0.7"
parking_lot = "0.12"
reqwest = { version = "0.12", default-features = false }
rubato = "0.14"
serde = { version = "=1.0.229", features = ["derive"] }
serde_json = "=1.0.154"
tokio = { version = "=1.54.1", features = ["macros", "net", "rt", "sync", "time"] }
tokio-stream = "0.1"
tokio-tungstenite = "=0.20.1"
