[package]
name = "mnist_recognition"
version = "0.1.0"
edition = "2021"
publish = false

[dependencies]
rand = "0.8"
ndarray = "0.15"
ndarray-rand = "0.14"
mnist = "0.5"
clap = { version = "3.2", features = ["derive"] }
