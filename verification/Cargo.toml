[package]
name = "falach_api"
version = "0.1.0"
edition = "2021"
publish = false

[dependencies]
zeroize = "1"
chrono = "0.4"
