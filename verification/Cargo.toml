[package]
name = "velocity_fuzz"
version = "0.1.0"
edition = "2021"
publish = false

[dependencies]
anchor-lang = { version = "=1.2.2", default-features = false, features = ["solana-v3"] }
bytemuck = "=1.25.2"
byteorder = "=1.5.0"
pyth-lazer-protocol = "=0.29.0"
serde_json = "=1.0.154"
solana-instruction = "=3.5.1"
solana-keypair = "=3.1.2"
solana-pubkey = { version = "=3.0.0", features = ["curve25519"] }
solana-signer = "=3.0.1"
