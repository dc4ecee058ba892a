[package]
name = "neworder"
version = "0.1.0"
edition = "2021"
publish = false

[dependencies]
pyo3 = { version = "=0.22.6", features = ["auto-initialize"] }
numpy = "=0.22.1"
argparse = "=0.2.2"
lazy_static = "=1.5.1"
rand_mt = "=6.1.0"
