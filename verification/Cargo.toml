[package]
name = "fq"
version = "0.1.0"
edition = "2021"
publish = false

[dependencies]
fugit = "0.3"
libc = "0.2"
rand_core = "0.9"
socket2 = { version = "0.5", features = ["all"] }
