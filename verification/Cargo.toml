[package]
name = "kukuri"
version = "0.1.0"
edition = "2021"
publish = false

[dependencies]
secp256k1 = { version = "0.30", features = ["global-context", "hashes", "std"] }
hex = "0.4"
serde = { version = "1", features = ["derive"] }
serde_json = "1"
anyhow = "1"
chrono = "0.4"
tokio = { version = "1", features = ["sync"] }
