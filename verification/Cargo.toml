[package]
name = "satview"
version = "0.1.0"
edition = "2021"
publish = false

[dependencies]
anyhow = "*"
chrono = "*"
image = "*"
libm = "*"
sgp4 = "*"
