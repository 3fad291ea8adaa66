[package]
name = "ws_transport"
version = "0.1.0"
edition = "2021"
publish = false

[dependencies]
futures = "0.3"
async-tungstenite = { version = "0.28", features = ["tokio-runtime", "async-std-runtime"] }
tokio = { version = "1", features = ["net", "rt", "io-util"] }
async-std = "1"
tokio-native-tls = "0.3"
async-native-tls = "*"
