[package]
name = "apriltag"
version = "0.1.0"
edition = "2021"
publish = false

[dependencies]
apriltag-sys = "*"
libc = "*"
