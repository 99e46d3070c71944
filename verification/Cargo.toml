[package]
name = "platformer_core"
version = "0.1.0"
edition = "2021"
publish = false

[dependencies]
macroquad = "=0.4.16"
nalgebra = "=0.29.0"
ncollide2d = "=0.32.0"
nphysics2d = "=0.24.0"
