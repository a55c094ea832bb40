[package]
name = "binance"
version = "0.1.0"
edition = "2021"
publish = false

[dependencies]
hmac = "0.12"
sha2 = "0.10"
chrono = "0.4"
serde_json = "1"
serde = { version = "1", features = ["derive"] }
url = "2"
futures = "0.3"
tokio = { version = "1", features = ["macros", "rt-multi-thread", "signal", "sync", "time"] }
tokio-tungstenite = "*"
