[package]
name = "epoll"
version = "0.1.0"
edition = "2021"
publish = false

[dependencies]
libc = "=0.2.191"

[dev-dependencies]
bitflags = "=2.13.2"
nix = "0.26"
