[package]
name = "whisper_rust"
version = "0.1.0"
edition = "2021"
publish = false

[dependencies]
whisper-rs = "*"
libc = "*"
once_cell = "*"
