[package]
name = "sphere_tetra"
version = "0.1.0"
edition = "2021"

[dependencies]
rand = "=0.8.5"
plotters = "0.3"
