[package]
name = "wasi_bridge"
version = "0.1.0"
edition = "2021"
publish = false

[dependencies]
neon = "=1.1.2"
wasmtime = "=48.0.5"
wasmtime-wasi = "=48.0.5"
wasmtime-wasi-http = "=48.0.5"
