[package]
name = "lessons"
version = "0.1.0"
edition = "2021"
publish = false

[dependencies]
aes-gcm-siv = "0.11"
anyhow = "1"
axum = "0.7"
base64 = "0.22"
bufstream = "0.1"
clap = { version = "4", features = ["derive"] }
env_logger = "0.11"
futures = "0.3"
heapless = "0.8"
hex = "0.4"
hmac = "0.12"
hyper = "1"
imap-proto = "0.16"
log = "0.4"
pbkdf2 = "0.12"
rustls-connector = "*"
sha2 = "0.10"
tokio = { version = "1", features = ["macros", "rt-multi-thread", "sync"] }
tower-layer = "0.3"
tower-service = "0.3"
