[package]
name = "runtime_overrider"
version = "0.1.0"
edition = "2021"
publish = false

[dependencies]
anyhow = "1"
clap = { version = "3.2", features = ["derive"] }
serde_json = "1"
wasm-loader = "=0.13.0"
