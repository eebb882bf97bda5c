[package]
name = "idhash_core"
version = "0.1.0"
edition = "2021"
publish = false

[dependencies]
arrow = { version = "*", default-features = false, features = ["ffi"] }
pyo3 = "*"
