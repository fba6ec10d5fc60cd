[package]
name = "value_encoder"
version = "0.1.0"
edition = "2021"
publish = false

[dependencies]
pyo3-ffi = "*"
serde = { version = "1", default-features = false, features = ["std"] }
