[package]
name = "nvim_bridge"
version = "0.1.0"
edition = "2021"
publish = false

[dependencies]
tokio = { version = "=1.53.2", features = ["full"] }
nvim-rs = { version = "=0.9.2", features = ["use_tokio"] }
rmpv = "=1.3.1"
async-trait = "*"
