[package]
name = "light_protocol"
version = "0.1.0"
edition = "2021"
publish = false

[dependencies]
solana-program = "2"
borsh = { version = "1", features = ["derive"] }
serde = { version = "1", features = ["derive"] }
serde_json = "1"
groth16-solana = "*"
