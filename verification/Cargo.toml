[package]
name = "remote_tarball"
version = "0.1.0"
edition = "2021"

[dependencies]
reqwest = "0.9"
