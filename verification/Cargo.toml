[package]
name = "server-access-nss"
version = "0.1.0"
edition = "2021"
publish = false

[dependencies]
rusqlite = "*"
libnss = "*"
libc = "*"
lazy_static = "*"
