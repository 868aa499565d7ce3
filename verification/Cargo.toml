[package]
name = "confidential_transfer"
version = "0.1.0"
edition = "2021"
publish = false

[dependencies]
bytemuck = "1"
solana-program = "1.16"
solana-zk-token-sdk = "1.16"
