[package]
name = "spin_on"
version = "0.1.0"
edition = "2021"
publish = false

[dependencies]
pin-utils = "0.1"
