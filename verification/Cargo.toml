[package]
name = "wallet_bridge"
version = "0.1.0"
edition = "2021"
publish = false

[dependencies]
anyhow = "1"
ed25519-dalek = "1"
futures = "0.3"
hex = "0.4"
nekoton = "*"
thiserror = "1"
tokio = { version = "1", features = ["rt-multi-thread", "time", "sync"] }
