[package]
name = "ws_relay"
version = "0.1.0"
edition = "2021"
publish = false

[dependencies]
base64 = "*"
local-ip-address = "*"
tokio = { version = "*", features = ["full"] }
tokio-tungstenite = "*"
futures-util = "*"
socket2 = "*"
serde = { version = "*", features = ["derive"] }
