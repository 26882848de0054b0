[package]
name = "nlib"
version = "0.1.0"
edition = "2021"
publish = false

[dependencies]
bit-vec = "=0.10.1"
rand = "=0.10.3"
getopts = "=0.2.24"
streaming-stats = "*"
