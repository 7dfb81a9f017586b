[package]
name = "optimax"
version = "0.1.0"
edition = "2021"
publish = false

[dependencies]
ndarray = "0.15"
ndarray-linalg = "0.16"
finitediff = "0.1"
rand = "0.8"
