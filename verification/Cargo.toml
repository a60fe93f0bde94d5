[package]
name = "slogger"
version = "0.1.0"
edition = "2021"
publish = false

[dependencies]
rocket = "0.5"
log = "0.4"
serde_json = "1"
