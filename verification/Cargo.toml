[package]
name = "soroban_wasm"
version = "0.1.0"
edition = "2021"
publish = false

[dependencies]
serde = { version = "1", features = ["derive"] }
stellar-xdr = "*"
tracing = "0.1"
wasmparser = "*"
