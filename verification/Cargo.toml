[package]
name = "bingo_bot"
version = "0.1.0"
edition = "2021"
publish = false

[dependencies]
fastrand = "2"
sha2 = "0.10"
url = "2"
