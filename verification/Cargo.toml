[package]
name = "simple_image_interface"
version = "0.1.0"
edition = "2021"
publish = false

[dependencies]
image = { version = "*", default-features = false, features = ["png", "jpeg"] }
ffmpeg-next = "*"
rscam = "*"
log = "*"
simplelog = "*"
