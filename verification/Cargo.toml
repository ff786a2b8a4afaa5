[package]
name = "coral"
version = "0.1.0"
edition = "2021"
publish = false

[dependencies]
atty = "=0.2.14"
clap = "=2.34.0"
image = "=0.25.10"
log = "=0.4.34"
simple_logger = "=1.16.0"
piston = "=1.0.0"
pistoncore-glutin_window = "=0.73.2"
piston2d-graphics = "=0.45.0"
piston2d-opengl_graphics = "=0.89.0"
