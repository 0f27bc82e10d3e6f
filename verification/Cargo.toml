[package]
name = "librsync"
version = "0.1.0"
edition = "2021"
publish = false

[dependencies]
librsync-sys = "*"
libc = "*"
log = "*"
