[package]
name = "seedctl"
version = "0.1.0"
edition = "2021"
publish = false

[dependencies]
anyhow = "1"
bip39 = "2"
bitcoin = "0.32"
console = "*"
crossterm = "*"
dialoguer = "*"
if-addrs = "*"
rand = "*"
serde = { version = "1", features = ["derive"] }
serde_json = "1"
sha2 = "0.10"
