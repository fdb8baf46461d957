[package]
name = "ws_core"
version = "0.1.0"
edition = "2021"
publish = false

[dependencies]
sha1 = "*"
base64 = "*"
http = "*"
hyper = { version = "*", features = ["http1", "server"] }
hyper-util = { version = "*", features = ["tokio"] }
futures = "*"
tokio = { version = "*", features = ["rt"] }
tokio-tungstenite = "*"
tungstenite = "*"
