[package]
name = "madura_javac"
version = "0.1.0"
edition = "2021"
publish = false

[dependencies]
mimalloc = { version = "=0.1.52", features = ["v2"] }
