[package]
name = "helmview"
version = "0.1.0"
edition = "2021"
publish = false

[dependencies]
serde = "1"
serde_yaml = "0.9"
tempfile = "3"
walkdir = "2"
