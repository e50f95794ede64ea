[package]
name = "wasmtime_provider"
version = "0.1.0"
edition = "2021"
publish = false

[dependencies]
log = "=0.4.34"
wapc = { version = "=2.2.0", default-features = false }
wasmtime = "=48.0.5"

[dev-dependencies]
wat = "=1.261.0"
