[package]
name = "rustc_cfg"
version = "0.1.0"
edition = "2021"
publish = false

[dependencies]
anyhow = "1"
rustc-hash = "2"
tracing = "0.1"
