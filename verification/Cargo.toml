[package]
name = "x11_window"
version = "0.1.0"
edition = "2021"
publish = false

[dependencies]
libc = "0.2"
x11-dl = "2"
