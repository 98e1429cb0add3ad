[package]
name = "zero2prod"
version = "0.1.0"
edition = "2021"
publish = false

[dependencies]
argon2 = "*"
base64 = "*"
rand = "0.8"
time = "*"
unicode-segmentation = "*"
uuid = { version = "*", features = ["v4"] }
validator = "*"
