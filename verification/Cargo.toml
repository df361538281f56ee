[package]
name = "rustup_core"
version = "0.1.0"
edition = "2021"
publish = false

[dependencies]
sha2 = "0.10"
clap = "2"
libc = "0.2"
tempdir = "0.3"
