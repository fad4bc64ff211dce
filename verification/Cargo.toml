[package]
name = "stfx"
version = "0.1.0"
edition = "2021"
publish = false

[dependencies]
base64 = "0.22"
blake2 = "0.10"
chacha20poly1305 = "0.10"
ed25519-dalek = "2"
hex = "0.4"
rand = "0.8"
rand_core = { version = "0.6", features = ["getrandom"] }
serde = { version = "1", features = ["derive"] }
serde_json = "1"
sha2 = "0.10"
thiserror = "1"
tokio = { version = "1", features = ["sync", "macros", "rt"] }
url = "2"
x25519-dalek = { version = "2", features = ["static_secrets"] }
