[package]
name = "chardevgpio"
version = "0.1.0"
edition = "2021"
publish = false

[dependencies]
glob = "*"
libc = "*"
nix = { version = "*", features = ["ioctl"] }
