[package]
name = "bmp085_180_rs"
version = "1.0.0"
edition = "2021"
publish = false

[dependencies]
embedded-hal = "1"
libm = "0.2"
