[package]
name = "dualnum"
version = "0.1.0"
edition = "2021"
publish = false

[dependencies]
pyo3 = "=0.30.1"

[dev-dependencies]
num-dual = "=0.2.0"
