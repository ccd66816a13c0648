[package]
name = "motorcom"
version = "0.1.0"
edition = "2021"
publish = false

[dependencies]
thiserror = "*"
embedded-can = "*"
socketcan = "*"
pyo3 = "*"
pyo3-log = "*"
pyo3-stub-gen = "*"
