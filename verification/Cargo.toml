[package]
name = "surfman"
version = "0.1.0"
edition = "2021"
publish = false

[dependencies]
core-foundation = "*"
euclid = "*"
glutin_gles2_sys = "*"
io-surface = "*"
mach = "*"
objc = "*"
