[package]
name = "rdbc"
version = "0.1.0"
edition = "2021"
publish = false

[dependencies]
bigdecimal = "*"
sqlite3-sys = "*"
