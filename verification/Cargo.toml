[package]
name = "gloof"
version = "0.1.0"
edition = "2021"
publish = false

[dependencies]
indexmap = "*"
smallvec = "*"
glam = "*"
libc = "*"
lazy_static = "*"
x11-dl = "*"
x11 = { version = "*", features = ["glx", "xlib"] }
