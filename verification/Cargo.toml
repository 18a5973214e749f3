[package]
name = "context-password"
version = "0.1.0"
edition = "2021"
publish = false

[dependencies]
zeroize = "=1.9.1"
serde = { version = "=1.0.229", features = ["derive"] }
serde_json = "=1.0.154"
toml = "=1.1.8"
totp-rs = { version = "=6.0.0", features = ["otpauth"] }
uuid = "=1.29.0"
global-hotkey = "=0.9.0"

