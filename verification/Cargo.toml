[package]
name = "stargate"
version = "0.1.0"
edition = "2021"
publish = false

[dependencies]
parity-codec = { version = "3.5", default-features = false, features = ["std"] }
failure = "0.1"
futures = "0.3"
tokio = { version = "1", features = ["rt-multi-thread", "time"] }
