[package]
name = "il_runtime"
version = "0.1.0"
edition = "2021"
publish = false

[dependencies]
likely_stable = "*"
colored = "*"
