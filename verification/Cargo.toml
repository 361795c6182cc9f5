[package]
name = "hall_analog"
version = "0.1.0"
edition = "2021"
publish = false

[dependencies]
embassy-rp = { version = "0.10", features = ["rp2040"] }
