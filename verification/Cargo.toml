[package]
name = "glowmesh"
version = "0.1.0"
edition = "2021"
publish = false

[dependencies]
glow = "*"
minvect = "*"
minimg = "*"
bytemuck = "*"
