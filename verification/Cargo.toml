[package]
name = "tenzro-edge-core"
version = "0.1.0"
edition = "2021"
publish = false

[dependencies]
anyhow = "1"
async-stream = "0.3"
async-trait = "0.1"
base64 = "=0.22.1"
blake3 = { version = "1", features = ["pure"] }
bytes = "1"
clap = { version = "4", features = ["derive"] }
ed25519-dalek = { version = "=2.2.0", features = ["rand_core"] }
futures = "0.3"
hex = "=0.4.3"
rand_core = { version = "=0.6.4", features = ["getrandom"] }
reqwest = { version = "0.12", default-features = false, features = ["json"] }
serde = { version = "1", features = ["derive"] }
serde_json = "1"
sha2 = "=0.10.9"
tenzro-sdk = "=0.7.0"
thiserror = "2"
tokio = { version = "1", features = ["rt", "macros", "time", "fs", "sync"] }
