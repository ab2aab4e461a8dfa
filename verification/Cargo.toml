[package]
name = "soulseek_protocol"
version = "0.1.0"
edition = "2021"
publish = false

[dependencies]
flate2 = "1"
md5 = "0.7"
rand = "0.8"
hex = "0.4"
serde = { version = "1", features = ["derive"] }
serde_json = "1"
tokio = { version = "1", features = ["full"] }
sled = "0.34"
