[package]
name = "c2m_core"
version = "0.1.0"
edition = "2021"
publish = false

[dependencies]
metal = "*"
pyo3 = { version = "*", features = ["extension-module"] }
