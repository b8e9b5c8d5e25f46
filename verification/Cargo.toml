[package]
name = "passthesalt"
version = "0.1.0"
edition = "2021"
publish = false

[dependencies]
sodiumoxide = "*"
rustc-serialize = "0.3"
rfc1751 = "*"
clap = "2"
