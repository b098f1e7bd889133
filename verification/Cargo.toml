[package]
name = "fogo_stake_pool"
version = "0.1.0"
edition = "2021"
publish = false

[dependencies]
borsh = { version = "1", features = ["derive"] }
bytemuck = { version = "1", features = ["derive"] }
codama = "*"
codama-macros = "*"
num-derive = "0.4"
num-traits = "0.2"
serde_json = "1"
solana-program = "2"
solana-sdk-ids = "2"
solana-security-txt = "1"
spl-pod = "0.5"
