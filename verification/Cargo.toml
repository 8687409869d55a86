[package]
name = "blendshape"
version = "0.1.0"
edition = "2021"
publish = false

[dependencies]
fyrox = "=0.31.0"
fyrox-core = "=0.25.0"
