[package]
name = "cubevis"
version = "0.1.0"
edition = "2021"
publish = false

[dependencies]
fitsrs = "*"
wgpu = "*"
winit = "*"
cgmath = "*"
bytemuck = "*"
memmap2 = "*"
log = "*"
env_logger = "*"
async-channel = "*"
