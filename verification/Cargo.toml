[package]
name = "harfbuzz"
version = "0.1.0"
edition = "2021"
publish = false

[dependencies]
harfbuzz-sys = "0.5"
heck = "0.3"
regex = "1"
