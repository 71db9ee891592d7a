[package]
name = "crosschain_hub"
version = "0.1.0"
edition = "2021"
publish = false

[dependencies]
solana-program = "1.18"
uuid = { version = "1", features = ["v4"] }
chrono = "0.4"
borsh = { version = "1", features = ["derive"] }
