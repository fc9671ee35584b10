[package]
name = "marshal_formats"
version = "0.1.0"
edition = "2021"
publish = false

[dependencies]
vu128 = "1"
