[package]
name = "canister_factory"
version = "0.1.0"
edition = "2021"
publish = false

[dependencies]
async-trait = "=0.1.92"
candid = "=0.7.16"
ic-kit = "=0.5.0-alpha.4"
serde = { version = "=1.0.229", features = ["derive"] }
serde_bytes = "=0.11.19"
