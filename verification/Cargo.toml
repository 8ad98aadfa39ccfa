[package]
name = "tooly"
version = "0.1.0"
edition = "2021"
publish = false

[dependencies]
percent-encoding = "2"
serde_json = "1"
wait-timeout = "0.2"
