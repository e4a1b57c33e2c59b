[package]
name = "mandelbrot"
version = "0.1.0"
edition = "2021"
publish = false

[dependencies]
colorous = "1"
itertools-num = "0.1"
num = "0.4"
rayon = "1"
