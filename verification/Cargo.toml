[package]
name = "bn254_codec"
version = "0.1.0"
edition = "2021"
publish = false

[dependencies]
substrate-bn = "*"
