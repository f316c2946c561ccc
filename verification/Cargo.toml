[package]
name = "powchain"
version = "0.1.0"
edition = "2021"
publish = false

[dependencies]
secp256k1 = { version = "*", features = ["rand", "std"] }
sha2 = "*"
hex = "*"
chrono = "*"
serde = { version = "*", features = ["derive"] }
actix-web = "*"
