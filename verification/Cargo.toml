[package]
name = "ar5iv_redirect"
version = "0.1.0"
edition = "2021"
publish = false

[dependencies]
lazy_static = "1"
regex = "1"
rocket = "0.5"
