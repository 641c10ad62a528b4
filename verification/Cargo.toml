[package]
name = "aptos_client"
version = "0.1.0"
edition = "2021"
publish = false

[dependencies]
anyhow = "=1.0.104"
aptos-sdk = { version = "=0.8.0", default-features = false, features = ["ed25519"] }
bcs = "=0.1.6"
hex = "=0.4.3"
rand_core = "=0.6.4"
serde = { version = "=1.0.229", features = ["derive"] }
serde_json = "=1.0.154"
ureq = { version = "=2.12.1", features = ["json"] }
