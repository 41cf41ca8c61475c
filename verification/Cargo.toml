[package]
name = "aruco"
version = "0.1.0"
edition = "2021"
publish = false

[dependencies]
imageproc = { version = "0.25", default-features = false }
image = { version = "0.25", default-features = false, features = ["png"] }
