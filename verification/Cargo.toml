[package]
name = "vrc_chat_tool"
version = "0.1.0"
edition = "2021"
publish = false

[dependencies]
rosc = "*"
hmac = "0.12"
sha1 = "0.10"
base64 = "0.21"
urlencoding = "2"
uuid = { version = "1", features = ["v4"] }
serde = { version = "1", features = ["derive"] }
serde_json = "1"
serde_yaml = "0.9"
anyhow = "1"
chrono = "0.4"
dotenvy = "0.15"
tiny_http = "0.12"
rusqlite = { version = "*", features = ["bundled"] }
tokio = { version = "1", features = ["rt-multi-thread", "macros", "sync", "time", "net"] }
tokio-tungstenite = "0.21"
futures-util = "0.3"
clap = { version = "4", features = ["derive"] }
