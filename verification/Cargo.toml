[package]
name = "solana_token_cli"
version = "0.1.0"
edition = "2021"
publish = false

[dependencies]
anyhow = "=1.0.104"
dirs = "=6.0.0"
serde_json = "=1.0.154"
shellexpand = "=3.1.2"
solana-keypair = "=2.2.3"
solana-pubkey = { version = "=2.4.0", features = ["curve25519"] }
solana-system-interface = "=1.0.0"

[dev-dependencies]
sha2 = "=0.10.9"
solana-signer = "=2.2.1"
