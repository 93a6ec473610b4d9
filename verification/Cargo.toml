[package]
name = "avif_decode"
version = "1.0.0"
edition = "2021"
publish = false

[dependencies]
yuv = "=0.1.10"
avif-parse = "=2.1.0"
imgref = "=1.12.3"
lodepng = "=3.12.2"
