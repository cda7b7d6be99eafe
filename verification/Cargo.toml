[package]
name = "dcerpc"
version = "0.1.0"
edition = "2021"
publish = false

[dependencies]
fork = "*"
nix = { version = "*", features = ["process"] }
thiserror = "*"
