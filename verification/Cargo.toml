[package]
name = "tinyrigel"
version = "0.1.0"
edition = "2021"
publish = false

[dependencies]
ascii = "1"
packed_struct = "0.10"
