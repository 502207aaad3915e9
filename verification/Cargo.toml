[package]
name = "thrid"
version = "0.1.0"
edition = "2021"
publish = false

[dependencies]
thread-id = "4"
libc = "0.2"
