[package]
name = "speech_stream"
version = "0.1.0"
edition = "2021"
publish = false

[dependencies]
cpal = "0.15"
futures-util = "0.3"
http = "1"
serde_json = "1"
tokio = { version = "1", features = ["net", "rt", "sync"] }
tokio-tungstenite = { version = "0.24", features = ["native-tls"] }

[dev-dependencies]
bytemuck = "1"
