[package]
name = "pipx"
version = "0.1.0"
edition = "2021"
publish = false

[dependencies]
async-trait = "0.1"
