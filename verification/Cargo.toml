[package]
name = "blur_api"
version = "0.1.0"
edition = "2021"
publish = false

[dependencies]
known-folders = "*"
