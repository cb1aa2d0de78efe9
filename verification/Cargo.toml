[package]
name = "hello_triangle"
version = "0.1.0"
edition = "2021"
publish = false

[dependencies]
vk-sys = "=0.5.2"
vulkano = "=0.19.0"
vulkano-win = "=0.19.0"
winit = "=0.22.2"
