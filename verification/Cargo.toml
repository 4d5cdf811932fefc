[package]
name = "jotti"
version = "0.1.0"
edition = "2021"
publish = false

[dependencies]
regex = "=1.13.1"
sha2 = "=0.10.9"
hex = "=0.4.3"
ed25519-dalek = "=2.2.0"
base64 = "=0.22.1"
tar = "=0.4.46"
flate2 = "=1.1.10"
zip = { version = "=2.6.1", default-features = false, features = ["deflate"] }
argon2 = { version = "=0.5.3", features = ["std"] }
base32 = "=0.5.1"
totp-rs = "=5.7.2"
serde = { version = "=1.0.229", features = ["derive"] }
serde_json = "=1.0.154"
tokio = { version = "=1.54.1", features = ["full"] }
axum = "=0.8.9"
tracing = "=0.1.44"
tracing-subscriber = { version = "=0.3.23", features = ["env-filter", "json"] }
anyhow = "=1.0.104"
dotenvy = "=0.15.7"
rand = "=0.8.8"
chrono = "=0.4.45"
image = { version = "=0.25.10", default-features = false, features = ["png", "jpeg", "webp"] }
toml = "=0.8.23"
uuid = { version = "1", features = ["v4"] }
