[package]
name = "rfind"
version = "0.1.0"
edition = "2021"
publish = false

[dependencies]
glob = "*"
memchr = "*"
pathdiff = "*"
clap = { version = "*", features = ["derive"] }
colored = "*"
crossbeam-channel = "*"
num_cpus = "*"
parking_lot = "*"
