[package]
name = "raytrace"
version = "0.1.0"
edition = "2021"
publish = false

[dependencies]
nalgebra = "*"
rand = "0.8"
rand_pcg = "0.3"
