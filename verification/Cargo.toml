[package]
name = "odyssey_wallet"
version = "0.1.0"
edition = "2021"
publish = false

[dependencies]
alloy-eips = "=2.5.0"
alloy-network = "=2.5.0"
alloy-primitives = "=1.7.3"
alloy-rpc-types = "=2.5.0"
jsonrpsee = { version = "=0.26.1", features = ["server", "macros"] }
metrics = "=0.24.6"
metrics-derive = "*"
reth-rpc-eth-api = "=0.0.0"
reth-storage-api = "=0.0.0"
revm-bytecode = "*"
revm-primitives = "=43.0.0"
serde = { version = "=1.0.229", features = ["derive"] }
thiserror = "=2.0.21"
tokio = { version = "=1.54.1", features = ["sync", "macros"] }
tracing = "=0.1.44"
