[package]
name = "cc-traits"
version = "0.1.0"
edition = "2021"
publish = false

[dependencies]
slab = "0.4"
