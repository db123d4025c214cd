[package]
name = "corgi_brain"
version = "0.1.0"
edition = "2021"

[dependencies]
nalgebra = "0.32"
rand = "0.8"
rand_distr = "0.4"
