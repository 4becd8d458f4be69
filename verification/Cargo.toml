[package]
name = "x448"
version = "0.1.0"
edition = "2021"
publish = false

[dependencies]
ed448 = "=0.4.0"

[dev-dependencies]
hex = "=0.4.3"
