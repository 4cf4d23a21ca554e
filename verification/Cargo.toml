[package]
name = "yazi_plugin"
version = "0.1.0"
edition = "2021"
publish = false

[dependencies]
tokio = { version = "*", features = ["process", "io-util", "sync", "rt"] }
