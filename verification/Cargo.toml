[package]
name = "backlight"
version = "0.1.0"
edition = "2021"
publish = false

[dependencies]
anyhow = "*"
input = { version = "*", default-features = false }
