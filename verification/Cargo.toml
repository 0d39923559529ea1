[package]
name = "ch_devices"
version = "0.1.0"
edition = "2021"
publish = false

[dependencies]
anyhow = "=1.0.104"
safe-path = "=0.1.0"
