[package]
name = "rusoto_credential"
version = "0.1.0"
edition = "2021"
publish = false

[dependencies]
futures = "0.1"
hyper = "0.12"
serde_json = "1"
tokio-timer = "0.2"
