[package]
name = "btc_proxy"
version = "0.1.0"
edition = "2021"
publish = false

[dependencies]
hyper = { version = "0.14", features = ["full"] }
reqwest = "0.11"
tokio = { version = "1", features = ["full"] }
