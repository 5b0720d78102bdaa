[package]
name = "libmoss"
version = "0.1.0"
edition = "2021"
publish = false

[dependencies]
glob = "0.3"
shellexpand = "3"
regex = "1"
clap = { version = "3", features = ["derive"] }
wild = "2"
