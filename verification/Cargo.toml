[package]
name = "miniftp"
version = "0.1.0"
edition = "2021"
publish = false

[dependencies]
nix = "0.23"
log = "0.4"
