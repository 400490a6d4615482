[package]
name = "btc_client"
version = "0.1.0"
edition = "2021"
publish = false

[dependencies]
base64 = "0.13"
chrono = "0.4"
hex = "0.4"
hmac = "0.12"
http = "0.2"
hyper = { version = "0.14", features = ["client", "http1"] }
serde = "1"
serde_json = "1"
sha2 = "0.10"
url = "2"
