[package]
name = "xshare"
version = "0.1.0"
edition = "2021"
publish = false

[dependencies]
solana-program = "=2.3.0"
brine-ed25519 = "=0.10.0"
mpl-bubblegum = "=2.1.1"
anchor-lang = { version = "=0.31.2", features = ["init-if-needed"] }
anchor-spl = { version = "=0.31.2", default-features = false, features = ["token", "token_2022", "associated_token"] }
ephemeral-rollups-sdk = { version = "=0.2.12", features = ["anchor"] }

[dev-dependencies]
curve25519-dalek = "=4.1.3"
sha2 = "=0.10.9"
