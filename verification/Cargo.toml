[package]
name = "cant_happen"
version = "0.1.0"
edition = "2021"
publish = false

[dependencies]
urlencoding = "2"
lazy_static = "1"
