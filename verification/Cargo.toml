[package]
name = "zenithta"
version = "0.1.0"
edition = "2021"
publish = false

[dependencies]
pyo3 = "0.23"
numpy = "0.23"
num-traits = "0.2"
