[package]
name = "dtmf"
version = "0.1.0"
edition = "2021"
publish = false

[dependencies]
rodio = { version = "0.20", default-features = false }
