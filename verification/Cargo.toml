[package]
name = "scriptlint"
version = "0.1.0"
edition = "2021"
publish = false

[dependencies]
fnv = "1.0"
bitflags = "1.3"
inventory = "0.3"
