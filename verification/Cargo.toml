[package]
name = "rmqtt_test"
version = "0.1.0"
edition = "2021"
publish = false

[dependencies]
rmqtt-codec = "*"
tokio = { version = "1", features = ["full"] }
tokio-util = { version = "*", features = ["codec"] }
futures = "0.3"
anyhow = "1"
bytes = "1"
bytestring = "1"
tracing = "0.1"
