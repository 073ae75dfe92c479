[package]
name = "graphplay"
version = "0.1.0"
edition = "2021"
publish = false

[dependencies]
gfx = "0.18"
gfx_window_glutin = "0.31"
glutin = "0.21"
nalgebra = "*"
