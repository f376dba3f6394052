[package]
name = "usenetsync"
version = "0.1.0"
edition = "2021"
publish = false

[dependencies]
base64 = "=0.13.1"
chrono = { version = "=0.4.45", features = ["serde"] }
ed25519-dalek = "=1.0.1"
hex = "=0.4.3"
keyring = "=2.3.3"
rand = "=0.7.3"
serde = { version = "=1.0.229", features = ["derive"] }
serde_json = "=1.0.154"
sha3 = "=0.10.9"
sysinfo = "=0.29.11"
