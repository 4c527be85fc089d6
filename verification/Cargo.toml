[package]
name = "bridge_relayer"
version = "0.1.0"
edition = "2021"
publish = false

[dependencies]
anyhow = "1"
config = { version = "0.14", default-features = false, features = ["toml"] }
env_logger = { version = "0.11", default-features = false }
serde = { version = "1", features = ["derive"] }
solana-sdk = "1.18"
tokio = { version = "1", features = ["macros", "rt-multi-thread", "time"] }
