[package]
name = "grafx"
version = "0.1.0"
edition = "2021"
publish = false

[dependencies]
freetype-rs = "*"
gl = "0.14"
glutin = "0.29"
