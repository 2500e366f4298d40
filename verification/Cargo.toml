[package]
name = "bones"
version = "0.1.0"
edition = "2021"
publish = false

[dependencies]
toml = "0.8"
shaderc = "0.8"
ash = "0.37"
libc = "0.2"
