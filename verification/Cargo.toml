[package]
name = "ferrite"
version = "0.1.0"
edition = "2021"
publish = false

[dependencies]
ethers-core = "2.0"
ethers-signers = "2.0"
hex = "0.4"
pyo3 = { version = "0.20", features = ["extension-module"] }
serde_json = "1"
