[package]
name = "scilla_config"
version = "0.1.0"
edition = "2021"
publish = false

[dependencies]
anyhow = "*"
console = "*"
dirs = "*"
solana-commitment-config = "*"
toml = { version = "*", features = ["preserve_order"] }
