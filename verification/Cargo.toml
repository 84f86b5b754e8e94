[package]
name = "loeti"
version = "0.1.0"
edition = "2021"
publish = false

[dev-dependencies]
pid = "=4.0.0"
