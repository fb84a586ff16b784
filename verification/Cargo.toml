[package]
name = "rbtc"
version = "0.1.0"
edition = "2021"
publish = false

[dependencies]
async-std = "1.12"
bincode = "1.3"
bs58 = "0.4"
clap = { version = "3.2", features = ["derive"] }
ethnum = "1"
rand = "0.8"
rust-crypto = "0.2"
serde = { version = "1", features = ["derive"] }
socket2 = "0.4"
