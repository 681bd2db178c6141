[package]
name = "yatis"
version = "0.1.0"
edition = "2021"
publish = false

[dependencies]
uuid = { version = "1", features = ["v4"] }
tokio = { version = "1", features = ["rt-multi-thread", "macros", "time", "sync"] }
tonic = "*"
futures = "0.3"
async-channel = "2"
log = "0.4"
simplelog = "0.12"
