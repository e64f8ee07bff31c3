[package]
name = "tguirs"
version = "0.1.0"
edition = "2021"
publish = false

[dependencies]
prost = "0.13"
nix = { version = "0.29", features = ["socket", "fs"] }
rand = "0.8"
