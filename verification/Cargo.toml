[package]
name = "smsdk"
version = "0.1.0"
edition = "2021"
publish = false

[dependencies]
base64 = "*"
uuid = { version = "*", features = ["v4"] }
serde = { version = "*", features = ["derive"] }
serde_json = "*"
anyhow = "*"
thiserror = "*"
dashmap = "*"
crossbeam-channel = "*"
url = "*"
reqwest = { version = "*", features = ["multipart", "native-tls"] }
native-tls = "*"
tokio = { version = "*", features = ["rt", "net", "time", "macros"] }
futures-util = "*"
tokio-tungstenite = "*"
