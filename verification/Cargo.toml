[package]
name = "hackchat"
version = "0.1.0"
edition = "2021"
publish = false

[dependencies]
serde_json = "1"
websocket = { version = "0.27", default-features = false, features = ["sync"] }
