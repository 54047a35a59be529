[package]
name = "taperipper"
version = "0.1.0"
edition = "2021"
publish = false

[dependencies]
rand = "*"
rand_core = "*"
rand_xoshiro = "*"
uefi = "*"
uefi-raw = "*"
