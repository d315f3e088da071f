[package]
name = "relayer_proxy"
version = "0.1.0"
edition = "2021"
publish = false

[dependencies]
chrono = "*"
crossbeam-channel = "*"
solana-sdk = "*"
tokio = { version = "*", features = ["rt-multi-thread", "time", "macros", "sync"] }
tonic = "*"
