[package]
name = "mars_rover"
version = "0.1.0"
edition = "2021"
publish = false

[dependencies]
sha2 = "=0.10.9"
ed25519-dalek = "=2.2.0"
hex = "=0.4.3"
base64 = "=0.22.1"
soroban-env-common = "=29.0.0"
soroban-env-host = { version = "=29.0.0", features = ["testutils"] }
soroban-simulation = "=29.0.0"
serde = "1"
serde_json = "1"
anyhow = "1"
