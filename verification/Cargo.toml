[package]
name = "firehose_frame"
version = "0.1.0"
edition = "2021"
publish = false

[dependencies]
ipld-core = "*"
serde_ipld_dagcbor = "*"
wasm-bindgen = "*"
