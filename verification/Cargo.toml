[package]
name = "cacao"
version = "0.1.0"
edition = "2021"
publish = false

[dependencies]
cocoa = "0.24"
dispatch = "0.2"
lazy_static = "1"
objc = "0.2"
objc_id = "0.1"
