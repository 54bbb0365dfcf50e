[package]
name = "magba"
version = "0.1.0"
edition = "2021"
publish = false

[dependencies]
ellip = "*"
nalgebra = "*"
rayon = "*"
