[package]
name = "filecoin_proofs"
version = "0.1.0"
edition = "2021"
publish = false

[dependencies]
anyhow = "1"
merkletree = "*"
serde = { version = "1", features = ["derive"] }
sha2 = "0.8"
