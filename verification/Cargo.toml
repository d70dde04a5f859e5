[package]
name = "fitsio"
version = "0.1.0"
edition = "2021"
publish = false

[dependencies]
fitsio-sys = { version = "=0.5.7", features = ["fitsio-src"] }
libc = "=0.2.190"
