[package]
name = "context"
version = "0.1.0"
edition = "2021"

[dependencies]
libc = "0.2"
log = "0.4"
memmap = "*"
