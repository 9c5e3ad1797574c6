[package]
name = "livestore"
version = "0.1.0"
edition = "2021"
publish = false

[dependencies]
boomphf = "0.6"
dashmap = "6"
tokio = { version = "1", features = ["sync", "time", "rt", "macros", "signal"] }
uuid = { version = "1", features = ["v4"] }
