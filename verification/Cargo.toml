[package]
name = "input"
version = "0.1.0"
edition = "2021"
publish = false

[dependencies]
piston-viewport = "*"
rustc-serialize = "=0.3.25"
