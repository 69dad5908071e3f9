[package]
name = "romio"
version = "0.1.0"
edition = "2021"
publish = false

[dependencies]
async-datagram = "*"
async-ready = "*"
futures = "0.3"
libc = "0.2"
mio = "0.6"
