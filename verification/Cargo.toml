[package]
name = "expectrl"
version = "0.1.0"
edition = "2021"
publish = false

[dependencies]
regex = "1"
nix = "0.26"
ptyprocess = "0.4"
polling = "2"
