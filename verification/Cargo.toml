[package]
name = "pumpkin"
version = "0.1.0"
edition = "2021"
publish = false

[dependencies]
crossbeam = "*"
rand = "*"
tokio = { version = "1", features = ["sync", "rt"] }
tracing = "0.1"
uuid = { version = "1", features = ["v3", "v4"] }
