[package]
name = "rustdcr"
version = "0.1.0"
edition = "2021"
publish = false

[dependencies]
async-trait = "0.1"
base64 = "0.13"
dirs = "3"
futures = "0.3"
futures-util = "0.3"
httparse = "1"
log = "0.4"
native-tls = "0.2"
ring = "0.16"
serde = { version = "1", features = ["derive"] }
serde_json = "1"
tokio = { version = "1", features = ["net", "io-util", "sync", "rt", "rt-multi-thread", "macros", "time"] }
tokio-native-tls = "0.3"
tokio-tungstenite = "0.13"
