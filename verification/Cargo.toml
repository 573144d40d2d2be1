[package]
name = "rawnet"
version = "0.1.0"
edition = "2021"
publish = false

[dependencies]
chrono = { version = "*", default-features = false, features = ["alloc"] }
pnet = "*"
