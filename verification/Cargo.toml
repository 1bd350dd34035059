[package]
name = "spherical_blue_noise"
version = "0.1.0"
edition = "2021"
publish = false

[dependencies]
glam = "*"
rand = "0.9"
rand_distr = "0.5"
