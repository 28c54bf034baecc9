[package]
name = "friend-rs"
version = "0.1.0"
edition = "2021"
publish = false

[dependencies]
anyhow = "1"
cpal = "*"
hound = "3"
reqwest = { version = "0.12", default-features = false, features = ["json", "rustls-tls"] }
rodio = "0.21"
serde = { version = "1", features = ["derive"] }
tokio = { version = "1", features = ["macros", "rt-multi-thread", "signal"] }
whisper-rs = "*"
