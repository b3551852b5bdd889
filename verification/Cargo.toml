[package]
name = "neotron_api"
version = "0.1.0"
edition = "2021"
publish = false

[dependencies]
neotron-ffi = "*"
