[package]
name = "simple_futures"
version = "0.1.0"
edition = "2021"
publish = false

[dependencies]
atomic_swapping = "*"

[dev-dependencies]
rand = "0.8"
