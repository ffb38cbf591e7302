[package]
name = "msg_rng"
version = "0.1.0"
edition = "2021"
publish = false

[dependencies]
rand = "0.9"
bevy = { version = "0.18", default-features = false }
