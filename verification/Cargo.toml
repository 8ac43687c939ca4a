[package]
name = "gateway_client"
version = "0.1.0"
edition = "2021"
publish = false

[dependencies]
chrono = { version = "0.4", default-features = false, features = ["std"] }
serde_json = "1"
url = "2"
reqwest = { version = "*", features = ["json"] }
tungstenite = { version = "*", features = ["native-tls"] }
