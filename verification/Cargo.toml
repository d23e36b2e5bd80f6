[package]
name = "sidealsa"
version = "0.1.0"
edition = "2021"
publish = false

[dependencies]
alsa = "*"
libc = "*"
signal-hook = "*"
thiserror = "*"
