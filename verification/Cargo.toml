[package]
name = "mdhasher"
version = "0.1.0"
edition = "2021"
publish = false

[dependencies]
shaman = "*"
ignore = "*"
clap = "2"
