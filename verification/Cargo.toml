[package]
name = "bundle_relay"
version = "0.1.0"
edition = "2021"
publish = false

[dependencies]
bincode = "1.3"
clap = { version = "4", features = ["derive", "env"] }
env_logger = "0.10"
futures-util = "0.3"
log = "0.4"
solana-sdk = "1.18"
spl-memo = "4"
tokio = { version = "1", features = ["macros", "rt-multi-thread", "time"] }
tonic = "0.10"
