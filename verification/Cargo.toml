[package]
name = "erdsea"
version = "0.1.0"
edition = "2021"
publish = false

[dependencies]
elrond-wasm = "0.30.0"
elrond-wasm-derive = "0.30.0"
