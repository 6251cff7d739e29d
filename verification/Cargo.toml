[package]
name = "synthphone_vocals"
version = "0.1.0"
edition = "2021"
publish = false

[dependencies]
libm = "*"
microfft = "*"
