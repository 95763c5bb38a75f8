[package]
name = "binaryen"
version = "0.1.0"
edition = "2021"
publish = false

[dependencies]
binaryen-sys = "=0.4.0"
