[package]
name = "bitcoin_rpc"
version = "0.1.0"
edition = "2021"
publish = false

[dependencies]
serde_json = { version = "1", features = ["arbitrary_precision"] }
serde = "1"
jsonrpc-client-core = "0.5"
jsonrpc-client-http = "0.5"
hyper = "0.11"
