[package]
name = "kitties"
version = "0.1.0"
edition = "2021"
publish = false

[dependencies]
rand_chacha = "=0.10.0"
serde = { version = "=1.0.229", features = ["derive"] }
sp-io = "=49.0.0"
sp-runtime = "=49.0.0"
