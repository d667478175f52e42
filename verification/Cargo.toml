[package]
name = "callback"
version = "0.1.0"
edition = "2021"
publish = false

[dependencies]
spin = "=0.5.2"
lazy_static = "=1.5.1"
web_common = "=0.1.0"
