[package]
name = "yanu"
version = "0.1.0"
edition = "2021"
publish = false

[dependencies]
hex = "0.4"
walkdir = "2"
tempfile = "3"
dirs = "*"
