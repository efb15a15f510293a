[package]
name = "rusty_chess"
version = "0.1.0"
edition = "2021"
publish = false

[dependencies]
conrod_core = "=0.65.0"
conrod_glium = "=0.65.0"
conrod_winit = "=0.65.0"
find_folder = "=0.3.0"
glium = "=0.23.0"
image = "=0.21.3"
