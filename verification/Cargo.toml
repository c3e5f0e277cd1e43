[package]
name = "input_streams"
version = "0.1.0"
edition = "2021"
publish = false

[dependencies]
bevy = { version = "0.10", default-features = false }
petitset = "0.2"
