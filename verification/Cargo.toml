[package]
name = "evm_sandbox"
version = "0.1.0"
edition = "2021"
publish = false

[dependencies]
revm = { version = "=9.0.0", default-features = false, features = ["std"] }
neon = { version = "0.10", default-features = false, features = ["napi-6"] }
