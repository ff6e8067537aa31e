[package]
name = "zebra_rpc_core"
version = "0.1.0"
edition = "2021"
publish = false

[dependencies]
jsonrpc-core = "=18.0.0"
jsonrpc-derive = "=18.0.0"
redjubjub = "=0.5.0"
thiserror = "=1.0.69"
tower = { version = "=0.4.13", features = ["buffer", "util"] }
futures = "=0.3.34"
sha2 = "0.10"
blake2b_simd = "=1.0.5"
serde = { version = "1", features = ["derive"] }
hex = { version = "0.4", features = ["serde"] }
