[package]
name = "playctl"
version = "0.1.0"
edition = "2021"
publish = false

[dependencies]
rand = "=0.10.3"
id3 = "=1.17.2"
nix = { version = "=0.31.3", features = ["fs"] }
