[package]
name = "lve_rs"
version = "0.1.0"
edition = "2021"
publish = false

[dependencies]
anyhow = "1"
ash = "0.37"
ash-window = "0.12"
bytemuck = "1"
nalgebra-glm = "0.18"
offset = "0.1"
ordered-float = "3"
raw-window-handle = "0.5"
tobj = "4"
winit = "0.28"
