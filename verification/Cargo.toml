[package]
name = "scroll_region"
version = "0.1.0"
edition = "2021"
publish = false

[dependencies]
scribe = "*"
