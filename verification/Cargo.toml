[package]
name = "ws_transport"
version = "0.1.0"
edition = "2021"
publish = false

[dependencies]
anyhow = "1"
log = "0.4"
websocket = { version = "0.26", default-features = false, features = ["sync"] }
