[package]
name = "chatex_merchant"
version = "0.1.0"
edition = "2021"
publish = false

[dependencies]
hyper = { version = "=0.14.32", features = ["client", "http1", "tcp"] }
log = "=0.4.34"
httpmock = "0.6"
serde_json = "=1.0.154"
