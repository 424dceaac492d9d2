[package]
name = "keyclip"
version = "0.1.0"
edition = "2021"
publish = false

[dependencies]
global-hotkey = "=0.7.0"
keyboard-types = "=0.7.0"
uuid = { version = "1", features = ["v4"] }
serde = { version = "1", features = ["derive"] }
serde_json = "1"
log = "0.4"
rodio = "0.20"
