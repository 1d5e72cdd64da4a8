[package]
name = "corange_rs"
version = "0.1.0"
edition = "2021"
publish = false

[dependencies]
libc = "0.2"
sdl2-sys = "*"
lazy_static = "1"
