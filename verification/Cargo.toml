[package]
name = "gear_runner"
version = "0.1.0"
edition = "2021"
publish = false

[dependencies]
anyhow = "=1.0.104"
blake2-rfc = "=0.2.18"
log = "=0.4.35"
parity-scale-codec = { version = "=2.3.1", features = ["derive"] }

[dev-dependencies]
wat = "=1.0.37"
