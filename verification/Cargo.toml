[package]
name = "iot_service"
version = "0.1.0"
edition = "2021"
publish = false

[dependencies]
async-std = { version = "1", features = ["attributes"] }
base64 = "0.22"
crossbeam = "0.8"
crossterm = "0.27"
http = "0.2"
httparse = "1"
hyper = { version = "0.14", features = ["full"] }
postgres = "0.19"
rayon = "1"
serde = { version = "1", features = ["derive"] }
serde_json = "1"
serde_urlencoded = "0.7"
tokio = { version = "1", features = ["full"] }
