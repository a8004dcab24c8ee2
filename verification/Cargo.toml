[package]
name = "plumber"
version = "0.1.0"
edition = "2021"
publish = false

[dependencies]
crossbeam-channel = "0.5"
glam = "0.20"
log = "0.4"
pyo3 = "0.16"
