[package]
name = "externals"
version = "0.1.0"
edition = "2021"
publish = false

[dependencies]
anyhow = "1"
wasmtime-environ = "0.21"
wasmtime-runtime = "0.21"
