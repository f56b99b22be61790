[package]
name = "findgrep"
version = "0.1.0"
edition = "2021"
publish = false

[dependencies]
regex = "1"
walkdir = "2"
clap = "2"

[dev-dependencies]
rand = "0.8"
