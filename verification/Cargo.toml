[package]
name = "orbits"
version = "0.1.0"
edition = "2021"
publish = false

[dependencies]
single_value_channel = "*"
