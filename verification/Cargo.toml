[package]
name = "webm"
version = "1.1.0"
edition = "2021"
publish = false

[dependencies]
webm-sys = "*"
