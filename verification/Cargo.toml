[package]
name = "adts"
version = "0.1.0"
edition = "2021"
publish = false

[dependencies]
mp4 = "*"
