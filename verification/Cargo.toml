[package]
name = "usbfs"
version = "0.1.0"
edition = "2021"

[dependencies]
nix = { version = "*", features = ["ioctl"] }
