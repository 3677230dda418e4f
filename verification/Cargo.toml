[package]
name = "wasm_sandbox"
version = "0.1.0"
edition = "2021"
publish = false

[dependencies]
wasmi = "=0.9.1"
parity-wasm = "=0.42.2"
serde_json = "=1.0.154"
serde-json-core = "=0.7.0"
serde-json-wasm = "=1.0.1"
sgx_types = "=1.1.1"
sgx_urts = "=1.1.1"
