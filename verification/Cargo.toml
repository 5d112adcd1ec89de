[package]
name = "wyvern_core"
version = "0.1.0"
edition = "2021"
publish = false

[dependencies]
flume = "0.11"
uuid = { version = "1", features = ["v4"] }
log = "0.4"
