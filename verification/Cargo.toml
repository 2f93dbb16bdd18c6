[package]
name = "mandelbrot"
version = "0.1.0"
edition = "2021"
publish = false

[dependencies]
rayon = "1"
num-complex = "0.4"
once_cell = "1"
gtk4 = "0.7"
