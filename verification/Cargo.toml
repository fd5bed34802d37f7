[package]
name = "pvf_executor"
version = "0.1.0"
edition = "2021"
publish = false

[dependencies]
parity-scale-codec = "*"
sc-executor-common = "=0.31.0"
sc-executor-wasmtime = "=0.31.0"
sp-externalities = "=0.27.0"

[dev-dependencies]
sp-maybe-compressed-blob = "*"
