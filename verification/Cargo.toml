[package]
name = "spike-prime"
version = "0.1.0"
edition = "2021"
publish = false

[dependencies]
byteorder = "1"
crc = "3"
uuid = "1"
btleplug = "0.11"
futures = "0.3"
tokio = { version = "1", features = ["sync", "rt", "macros"] }
