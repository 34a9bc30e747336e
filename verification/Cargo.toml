[package]
name = "oxcii"
version = "0.1.0"
edition = "2021"
publish = false

[dependencies]
rayon = "*"
image = "*"
strum = "*"
strum_macros = "*"
itertools = "*"
