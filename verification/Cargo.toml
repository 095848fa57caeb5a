[package]
name = "bybit_trader"
version = "0.1.0"
edition = "2021"
publish = false

[dependencies]
serde_json = "1"
hmac = "0.10"
sha2 = "0.9"
hex = "0.4"
serde = { version = "1", features = ["derive"] }
reqwest = { version = "*", default-features = false, features = ["json", "rustls-tls"] }
tokio = { version = "1", features = ["full"] }
tokio-tungstenite = { version = "*", features = ["rustls-tls-webpki-roots"] }
futures = "0.3"
url = "2"
chrono = "0.4"
parking_lot = "*"
