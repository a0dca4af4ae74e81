[package]
name = "rest_request"
version = "0.1.0"
edition = "2021"
publish = false

[dependencies]
http = "0.2"
url = "2"
reqwest = { version = "0.11", default-features = false }
serde = { version = "1", features = ["derive"] }
serde_json = "1"
