[package]
name = "esp32multical21"
version = "0.1.0"
edition = "2021"
publish = false

[dependencies]
aes = "0.8"
ctr = "0.9"
chrono = "0.4"
tokio = { version = "1", features = ["rt", "sync", "time", "io-util", "net", "macros"] }
log = "0.4"
anyhow = "1"
thiserror = "1"
serde = { version = "1", features = ["derive"] }
serde_json = "1"
postcard = { version = "1", features = ["use-crc", "alloc"] }
crc = "3"
