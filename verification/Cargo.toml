[package]
name = "caption_translator"
version = "0.1.0"
edition = "2021"
publish = false

[dependencies]
base64 = "0.22"
uuid = { version = "1", features = ["v4"] }
serde = { version = "1", features = ["derive"] }
serde_json = "1"
dotenvy = "0.15"
tokio = { version = "1", features = ["rt", "macros", "sync", "time"] }
futures-util = { version = "0.3", features = ["sink"] }
tokio-tungstenite = "0.24"
reqwest = { version = "0.12", default-features = false, features = ["json", "rustls-tls"] }
cpal = "0.15"
rodio = { version = "0.20", default-features = false, features = ["symphonia-wav", "symphonia-mp3"] }
wasapi = "*"
