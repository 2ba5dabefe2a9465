[package]
name = "t22"
version = "0.1.0"
edition = "2021"
publish = false

[dependencies]
anchor-lang = "=1.1.2"
anchor-spl = { version = "=1.1.2", default-features = false, features = ["mint", "token", "token_2022", "token_2022_extensions"] }
spl-token-metadata-interface = "=0.8.0"

[dev-dependencies]
bytemuck = "=1.25.2"
litesvm = { version = "=0.9.1", default-features = false }
solana-compute-budget-interface = "=3.0.0"
solana-keypair = "=3.1.0"
solana-message = "=3.0.1"
solana-signer = "=3.0.0"
solana-system-interface = "=2.0.0"
solana-transaction = "=3.0.2"
solana-zk-sdk = "=4.0.0"
spl-token-confidential-transfer-proof-extraction = "=0.5.1"
spl-token-confidential-transfer-proof-generation = "=0.5.1"
