[package]
name = "application"
version = "0.1.0"
edition = "2021"
publish = false

[dependencies]
hmac = "0.12"
sha2 = "0.10"
hex = "0.4"
uuid = { version = "1", features = ["v5"] }
chrono = "0.4"
serde_json = "1"
