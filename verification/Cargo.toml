[package]
name = "wire_editor"
version = "0.1.0"
edition = "2021"
publish = false

[dependencies]
gapbuffer = "*"
log = "*"
env_logger = "*"
