[package]
name = "iso8583_engine"
version = "0.1.0"
edition = "2021"
publish = false

[dependencies]
ring = "0.17"
hmac = "0.12"
sha2 = "0.10"
serde = { version = "1", features = ["derive"] }
serde_json = "1"
chrono = "0.4"
rand = "0.8"
tokio = { version = "1", features = ["net", "io-util", "time", "rt-multi-thread", "macros", "sync", "signal"] }
dotenvy = "0.15"
