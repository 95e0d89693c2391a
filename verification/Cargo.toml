[package]
name = "icymegle"
version = "0.1.0"
edition = "2021"
publish = false

[dependencies]
dark-light = "*"
omegalul = "*"
tokio = { version = "*", features = ["full"] }
