[package]
name = "stru"
version = "0.1.0"
edition = "2021"
publish = false

[dependencies]
errno = "*"
fontconfig = "*"
libc = "*"
x11 = { version = "*", features = ["xlib", "xft", "xrender"] }
