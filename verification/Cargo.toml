[package]
name = "pi_mc"
version = "0.1.0"
edition = "2021"
publish = false

[dependencies]
rand = "*"
rand_xoshiro = "*"
rayon = "*"
argh = "*"
