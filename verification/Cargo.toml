[package]
name = "block_alarm"
version = "0.1.0"
edition = "2021"
publish = false

[dependencies]
signal-hook = "0.3"
tokio = { version = "1", default-features = false, features = ["rt", "time"] }
