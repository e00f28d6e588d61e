[package]
name = "raytracing"
version = "0.1.0"
edition = "2021"
publish = false

[dependencies]
rand = "=0.8.8"
rayon = "=1.12.0"
indicatif = { version = "0.17", features = ["rayon"] }
image = "=0.24.9"
