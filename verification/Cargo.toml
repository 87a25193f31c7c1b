[package]
name = "clean_orderpool"
version = "0.1.0"
edition = "2021"
publish = false

[dependencies]
ethers = { version = "2", default-features = false, features = ["ipc"] }
eyre = "0.6"
futures = "0.3"
tokio = { version = "1", features = ["rt", "sync", "time"] }
tokio-util = "0.7"
tracing = "0.1"
