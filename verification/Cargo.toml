[package]
name = "decorator_validators"
version = "0.1.0"
edition = "2021"
publish = false

[dependencies]
pyo3 = "0.16"
