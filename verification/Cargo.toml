[package]
name = "shot_share"
version = "0.1.0"
edition = "2021"
publish = false

[dependencies]
base64 = "=0.23.1"
dirs = "=7.0.0"
keyring = { version = "=3.6.3", default-features = false }
serde = { version = "=1.0.229", features = ["derive"] }
serde_json = "=1.0.151"
ssh2 = "=0.9.6"
