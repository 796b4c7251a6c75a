[package]
name = "trade_sdk"
version = "0.1.0"
edition = "2021"
publish = false

[dependencies]
async-trait = "0.1"
hex = "0.4"
hmac = "0.12"
linkme = "0.3"
log = "0.4"
once_cell = "1"
percent-encoding = "2"
reqwest = { version = "0.12", features = ["json"] }
serde = { version = "1", features = ["derive"] }
serde_json = "1"
sha2 = "0.10"
tokio = { version = "1", features = ["rt-multi-thread", "time", "macros", "sync"] }
