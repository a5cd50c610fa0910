[package]
name = "mandelbrot_core"
version = "0.1.0"
edition = "2021"
publish = false

[dependencies]
histogram = "0.6"
image = { version = "0.22", default-features = false, features = ["png_codec"] }
rayon = "1"
num = "0.2"
palette = "0.5"
rand = "0.7"
chrono = "0.4"
log = "0.4"
env_logger = "0.7"
allegro = "*"
allegro_primitives = "*"
