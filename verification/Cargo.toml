[package]
name = "rocksdict"
version = "0.1.0"
edition = "2021"
publish = false

[dependencies]
libc = "*"
pyo3 = "*"
rocksdb = "*"
