[package]
name = "agent_bounty"
version = "0.1.0"
edition = "2021"
publish = false

[dependencies]
anchor-lang = { version = "=1.2.1", features = ["init-if-needed"] }
anchor-spl = { version = "=1.2.1", features = ["token"] }
borsh = "=1.8.1"
solana-program = "=5.1.0"
