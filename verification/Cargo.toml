[package]
name = "texture_share_ipc"
version = "0.1.0"
edition = "2021"
publish = false

[dependencies]
shared_memory = "*"
raw_sync = "*"
polling = "*"
libc = "*"
