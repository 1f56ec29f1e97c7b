[package]
name = "vvm_core"
version = "0.1.0"
edition = "2021"
publish = false

[dependencies]
rand_chacha = "*"
rand_core = "*"
serde = { version = "*", features = ["derive"] }
serde_json = "*"
sha2 = "*"
