[package]
name = "cart"
version = "0.1.0"
edition = "2021"
publish = false

[dependencies]
hashbrown = "*"
fastrand = "*"
numtoa = "*"
lazy_static = "*"
spin = "*"
