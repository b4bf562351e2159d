[package]
name = "audio_to_text"
version = "0.1.0"
edition = "2021"
publish = false

[dependencies]
actix = "*"
actix-cors = "*"
actix-files = "*"
actix-multipart = "*"
actix-web = "*"
actix-web-actors = "*"
actix-ws = "*"
anyhow = "*"
dotenv = "*"
futures-util = "*"
log = "*"
pretty_env_logger = "*"
serde = { version = "*", features = ["derive"] }
serde_json = "*"
thiserror = "*"
tokio = { version = "*", features = ["rt-multi-thread", "macros", "process", "fs", "sync", "time", "io-util"] }
uuid = { version = "*", features = ["v4"] }
whisper-rs = "*"
