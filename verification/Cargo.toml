[package]
name = "tickframe"
version = "0.1.0"
edition = "2021"
publish = false

[dependencies]
ash = "0.32"
ash-window = "0.6"
winit = "0.24"
vulkano = "0.22"
vulkano-win = "0.22"
vulkano-shaders = "0.22"
