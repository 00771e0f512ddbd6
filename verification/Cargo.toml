[package]
name = "timeout_optional"
version = "0.1.0"
edition = "2021"
publish = false

[dependencies]
tokio = { version = "*", features = ["time", "rt"] }
pin-project = "*"
futures-util = "*"
