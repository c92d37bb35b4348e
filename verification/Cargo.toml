[package]
name = "miden_playground"
version = "0.1.0"
edition = "2021"
publish = false

[dependencies]
miden-vm = "=0.19.1"
miden-processor = "=0.19.1"
miden-stdlib = "=0.19.1"
serde = { version = "=1.0.229", features = ["derive"] }
serde_json = "=1.0.151"
