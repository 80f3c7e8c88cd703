[package]
name = "turbo_kv_cache"
version = "0.1.0"
edition = "2021"
publish = false

[dependencies]
candle-core = { version = "*", default-features = false }
half = "*"
serde = { version = "1", features = ["derive"] }
tracing = "0.1"
