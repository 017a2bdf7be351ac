[package]
name = "tilescene"
version = "0.1.0"
edition = "2021"
publish = false

[dependencies]
quicksilver = "0.3"
