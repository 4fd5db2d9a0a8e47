[package]
name = "breakout"
version = "0.1.0"
edition = "2021"
publish = false

[dependencies]
bytemuck = "1"
glow = "0.13"
glutin = "0.31"
glutin-winit = "0.4"
image = "0.24"
nalgebra-glm = "0.18"
raw-window-handle = "0.5"
winit = "0.29"
