[package]
name = "rres"
version = "0.1.0"
edition = "2021"
publish = false

[dependencies]
drm = "*"
eyre = "*"
lexopt = "*"
log = "*"
simple_logger = "*"
